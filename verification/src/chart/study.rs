use vstd::prelude::*;

use crate::data::chart::kline::{same_study, FootprintStudy};

verus! {

/// What the study configurator was asked to do.
#[derive(Debug, Clone, Copy, PartialEq, Eq, Structural)]
pub enum Message {
    CardToggled(FootprintStudy),
    StudyToggled(FootprintStudy, bool),
    StudyValueChanged(FootprintStudy),
}

/// What the chart has to do after a configurator message.
#[derive(Debug, Clone, Copy, PartialEq, Eq, Structural)]
pub enum Action {
    Nothing,
    ToggleStudy(FootprintStudy, bool),
    ConfigureStudy(FootprintStudy),
}

/// The study configurator: which study card is expanded.
#[derive(Debug, Clone, Copy, PartialEq, Eq)]
pub struct ChartStudy {
    pub expanded_card: Option<FootprintStudy>,
}

impl ChartStudy {
    /// A configurator with every card collapsed.
    pub fn new() -> (s: Self)
        ensures
            s.expanded_card is None,
    {
        Self { expanded_card: None }
    }

    /// Handles a message: toggling the card of the expanded study collapses
    /// it, toggling another card expands that one; the other messages are
    /// handed to the chart.
    pub fn update(&mut self, message: Message) -> (a: Action)
        ensures
            (final(self).expanded_card, a) == spec_study_update(old(self).expanded_card, message),
    {
        match message {
            Message::CardToggled(study) => {
                let should_collapse = match &self.expanded_card {
                    Some(expanded) => expanded.is_same_type(&study),
                    None => false,
                };
                if should_collapse {
                    self.expanded_card = None;
                } else {
                    self.expanded_card = Some(study);
                }
            },
            Message::StudyToggled(study, is_checked) => {
                return Action::ToggleStudy(study, is_checked);
            },
            Message::StudyValueChanged(study) => {
                return Action::ConfigureStudy(study);
            },
        }
        Action::Nothing
    }
}

/// The expanded card and the action after a message.
pub open spec fn spec_study_update(expanded: Option<FootprintStudy>, message: Message) -> (
    Option<FootprintStudy>,
    Action,
) {
    match message {
        Message::CardToggled(study) => {
            let collapse = match expanded {
                Some(e) => same_study(e, study),
                None => false,
            };
            (if collapse { None } else { Some(study) }, Action::Nothing)
        },
        Message::StudyToggled(study, checked) => (expanded, Action::ToggleStudy(study, checked)),
        Message::StudyValueChanged(study) => (expanded, Action::ConfigureStudy(study)),
    }
}

/// Toggling a study's card expands it, and toggling the card of the same
/// study again (whatever its settings) collapses it.
pub proof fn law_card_toggle_twice_collapses(first: FootprintStudy, second: FootprintStudy)
    requires
        same_study(first, second),
    ensures
        spec_study_update(None, Message::CardToggled(first)).0 == Some(first),
        spec_study_update(
            spec_study_update(None, Message::CardToggled(first)).0,
            Message::CardToggled(second),
        ).0 is None,
{
}

} // verus!
