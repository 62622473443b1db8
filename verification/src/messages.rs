//! The two message streams: commands from the consumer to the worker, and
//! responses from the worker to the consumer.

use crate::actions::{DeviceInfo, DeviceInfoView};
use crate::types::{text_view, views, PropertyData, PropertyDataView, PropertyKind};
use vstd::prelude::*;

verus! {

/// What the consumer asks of the worker.
#[derive(Debug)]
pub enum WorkerCommand {
    /// Read every property of one group.
    QueryProperties(PropertyKind),
    /// Run the action with this id, with the staged parameter if there is
    /// one.
    TriggerAction(String, Option<String>),
    /// End the connection.
    Disconnect,
}

/// Model of a [`WorkerCommand`].
pub enum CommandView {
    QueryProperties(PropertyKind),
    TriggerAction(Seq<char>, Option<Seq<char>>),
    Disconnect,
}

impl View for WorkerCommand {
    type V = CommandView;

    open spec fn view(&self) -> CommandView {
        match *self {
            WorkerCommand::QueryProperties(kind) => CommandView::QueryProperties(kind),
            WorkerCommand::TriggerAction(id, param) => CommandView::TriggerAction(
                id@,
                text_view(param),
            ),
            WorkerCommand::Disconnect => CommandView::Disconnect,
        }
    }
}

/// What the worker tells the consumer.
#[derive(Debug)]
pub enum WorkerResponse {
    /// The connection stands.
    Connected(DeviceInfo),
    /// The properties of one group that could be read, in the device's
    /// order.
    Properties(PropertyKind, Vec<PropertyData>),
    /// How an action went: its name, whether it succeeded, and a message.
    ActionResult(String, bool, String),
    /// The connection could not be made.
    Error(String),
    /// The connection has ended.
    Disconnected,
}

/// Model of a [`WorkerResponse`].
pub enum ResponseView {
    Connected(DeviceInfoView),
    Properties(PropertyKind, Seq<PropertyDataView>),
    ActionResult(Seq<char>, bool, Seq<char>),
    Error(Seq<char>),
    Disconnected,
}

impl View for WorkerResponse {
    type V = ResponseView;

    open spec fn view(&self) -> ResponseView {
        match *self {
            WorkerResponse::Connected(info) => ResponseView::Connected(info@),
            WorkerResponse::Properties(kind, data) => ResponseView::Properties(
                kind,
                views(data@),
            ),
            WorkerResponse::ActionResult(name, success, message) => ResponseView::ActionResult(
                name@,
                success,
                message@,
            ),
            WorkerResponse::Error(message) => ResponseView::Error(message@),
            WorkerResponse::Disconnected => ResponseView::Disconnected,
        }
    }
}

impl ResponseView {
    /// After a terminal response the worker sends nothing more.
    pub open spec fn is_terminal(self) -> bool {
        self is Error || self is Disconnected
    }
}

impl WorkerResponse {
    /// Whether this response is the last one of its connection.
    pub fn is_terminal(&self) -> (res: bool)
        ensures
            res == self@.is_terminal(),
    {
        match self {
            WorkerResponse::Error(_) => true,
            WorkerResponse::Disconnected => true,
            _ => false,
        }
    }
}

} // verus!
