//! Command factories for the property inspector.
//!
//! The inspector reports a typed "field changed" event: which property, and
//! whether the payload is a leaf value, a nested inspectable, or a collection
//! edit. A factory maps the (entity kind, property) pair to a concrete
//! command; a pair no factory knows yields no command — a legitimate no-op,
//! not an error, and the stack records no history for it.

use vstd::prelude::*;

use crate::commands::{AtomicCommand, CommandV, SceneCommand};
use crate::pool::Handle;
use crate::scene::{node_at, valid_node, NodeState, SceneContextV};

verus! {

/// Which property of the target a change event speaks of.
#[derive(Clone, Copy, PartialEq, Eq, Structural, Debug)]
pub enum PropertyName {
    /// The texture of a rectangle node.
    Texture,
    /// The color of a rectangle node.
    Color,
    /// The nested group of base-node properties.
    Base,
    /// The tag of a base node.
    Tag,
    /// A property no factory here handles.
    Other,
}

/// The payload of a change event: a leaf value, a nested event on an
/// inspectable sub-object, or a collection edit.
#[derive(Debug)]
pub enum FieldKind {
    Object(i64),
    Inspectable(Box<PropertyChanged>),
    Collection,
}

/// A "field changed" notification from the property/UI diff layer.
#[derive(Debug)]
pub struct PropertyChanged {
    pub name: PropertyName,
    pub value: FieldKind,
}

/// The view of a factory's result.
pub open spec fn command_option_view(r: Option<SceneCommand>) -> Option<CommandV> {
    match r {
        Some(c) => Some(c.view()),
        None => None,
    }
}

/// Which command a change of a base-node property builds: a tag change
/// becomes a set-tag command, anything else maps to no command.
pub open spec fn base_property_command(
    args: PropertyChanged,
    handle: Handle,
    node: NodeState,
) -> Option<CommandV> {
    match args.value {
        FieldKind::Object(v) => match args.name {
            PropertyName::Tag => Some(
                CommandV::Atomic(
                    AtomicCommand::SetTag { handle, old_value: None, new_value: v },
                ),
            ),
            _ => None,
        },
        _ => None,
    }
}

/// Which command a change of a rectangle property builds: texture and color
/// changes become the matching set commands, a nested base event is handed
/// to the base factory, and anything else — or a target that is no rectangle
/// — maps to no command.
pub open spec fn rectangle_property_command(
    args: PropertyChanged,
    handle: Handle,
    node: NodeState,
) -> Option<CommandV> {
    if node.kind is Rectangle {
        match args.value {
            FieldKind::Object(v) => match args.name {
                PropertyName::Texture => Some(
                    CommandV::Atomic(
                        AtomicCommand::SetRectangleTexture {
                            handle,
                            old_value: None,
                            new_value: v,
                        },
                    ),
                ),
                PropertyName::Color => Some(
                    CommandV::Atomic(
                        AtomicCommand::SetRectangleColor {
                            handle,
                            old_value: None,
                            new_value: v,
                        },
                    ),
                ),
                _ => None,
            },
            FieldKind::Inspectable(inner) => match args.name {
                PropertyName::Base => base_property_command(*inner, handle, node),
                _ => None,
            },
            FieldKind::Collection => None,
        }
    } else {
        None
    }
}

/// Builds the command for a change of a base-node property.
pub fn handle_base_property_changed(
    args: &PropertyChanged,
    handle: Handle,
    node: &NodeState,
) -> (r: Option<SceneCommand>)
    ensures
        command_option_view(r) == base_property_command(*args, handle, *node),
{
    match &args.value {
        FieldKind::Object(v) => match args.name {
            PropertyName::Tag => Some(
                SceneCommand::Atomic(
                    AtomicCommand::SetTag { handle, old_value: None, new_value: *v },
                ),
            ),
            _ => None,
        },
        _ => None,
    }
}

/// Builds the command for a change of a rectangle property.
pub fn handle_rectangle_property_changed(
    args: &PropertyChanged,
    handle: Handle,
    node: &NodeState,
) -> (r: Option<SceneCommand>)
    ensures
        command_option_view(r) == rectangle_property_command(*args, handle, *node),
{
    if node.is_rectangle() {
        match &args.value {
            FieldKind::Object(v) => match args.name {
                PropertyName::Texture => Some(
                    SceneCommand::Atomic(
                        AtomicCommand::SetRectangleTexture {
                            handle,
                            old_value: None,
                            new_value: *v,
                        },
                    ),
                ),
                PropertyName::Color => Some(
                    SceneCommand::Atomic(
                        AtomicCommand::SetRectangleColor {
                            handle,
                            old_value: None,
                            new_value: *v,
                        },
                    ),
                ),
                _ => None,
            },
            FieldKind::Inspectable(inner) => match args.name {
                PropertyName::Base => handle_base_property_changed(inner, handle, node),
                _ => None,
            },
            FieldKind::Collection => None,
        }
    } else {
        None
    }
}

/// A command a factory hands out is enabled on any context in which its
/// target is the live node the event spoke of: pushing it on the stack
/// right away meets the stack's precondition.
pub proof fn lemma_factory_command_executable(
    args: PropertyChanged,
    handle: Handle,
    node: NodeState,
    s: SceneContextV,
)
    requires
        valid_node(s, handle),
        rectangle_property_command(args, handle, node) is Some,
    ensures
        crate::commands::can_execute(rectangle_property_command(args, handle, node)->0, s),
{
}

} // verus!
