use vstd::prelude::*;
use iced::widget::Id;
use iced::widget::scrollable::Viewport;

use crate::direction::Direction;
use crate::position::Position;

verus! {

/// iced's `Event`, a raw platform event passed through unopened.
#[verifier::external_type_specification]
#[verifier::external_body]
pub struct ExEvent(iced::Event);

/// iced's widget `Id`, an identity token carried through unopened.
#[verifier::external_type_specification]
#[verifier::external_body]
pub struct ExId(Id);

/// iced's scrollable `Viewport`, carried through unopened.
#[verifier::external_type_specification]
#[verifier::external_body]
pub struct ExViewport(Viewport);

/// Relies on the derived `Clone` of iced's `Event`, used when a message is cloned.
pub assume_specification[ <iced::Event as std::clone::Clone>::clone ](e: &iced::Event) -> iced::Event;

/// Relies on the derived `Clone` of iced's widget `Id`, used when a message is cloned.
pub assume_specification[ <iced::widget::Id as std::clone::Clone>::clone ](id: &iced::widget::Id) -> iced::widget::Id;

/// Relies on the derived `Clone` of iced's scrollable `Viewport`, used when a message is cloned.
pub assume_specification[ <iced::widget::scrollable::Viewport as std::clone::Clone>::clone ](
    v: &iced::widget::scrollable::Viewport,
) -> iced::widget::scrollable::Viewport;

/// The signals a grid hands up to the host's message loop.
#[derive(Clone)]
pub enum Message<CustomMessage: Clone> {
    ButtonPressed(Position),
    Custom(CustomMessage),
    Event(iced::Event),
    ItemSelected(Id),
    Navigate(Direction),
    GotViewport(Viewport),
    BoundsFound(),
    Select,
    Back,
    Nil,
}

impl<CustomMessage: Clone> Message<CustomMessage> {
    /// The payload of a `Custom` message, and nothing for any other kind.
    pub fn get_custom(self) -> (r: Option<CustomMessage>)
        ensures
            r == (match self {
                Message::Custom(cm) => Some(cm),
                _ => None::<CustomMessage>,
            }),
    {
        match self {
            Message::Custom(cm) => Some(cm),
            _ => None,
        }
    }
}

} // verus!
