//! The two small enums the engine schedules with: the click mode (timing
//! strategy) and the mouse button a synthetic click targets.

use vstd::prelude::*;

verus! {

/// Strategy governing inter-click timing.
#[derive(Clone, Copy, Debug, PartialEq, Eq, Structural)]
pub enum ClickMode {
    /// A constant delay between clicks.
    FixedInterval,
    /// A fresh uniform draw from a closed interval before each click.
    RandomInterval,
    /// As fast as possible (a fixed minimal delay, to avoid a busy spin).
    Continuous,
    /// A repeating sequence of delays, walked with a wrapping cursor.
    Pattern,
}

impl ClickMode {
    /// Display label of the mode.
    pub fn name(&self) -> (s: &'static str)
        ensures
            *self is FixedInterval ==> s@ == "Fixed Interval"@,
            *self is RandomInterval ==> s@ == "Random Interval"@,
            *self is Continuous ==> s@ == "Continuous"@,
            *self is Pattern ==> s@ == "Pattern"@,
    {
        match self {
            ClickMode::FixedInterval => "Fixed Interval",
            ClickMode::RandomInterval => "Random Interval",
            ClickMode::Continuous => "Continuous",
            ClickMode::Pattern => "Pattern",
        }
    }

    /// Every mode, in the order the selection UI lists them.
    pub fn all() -> (v: Vec<ClickMode>)
        ensures
            v@ == seq![
                ClickMode::FixedInterval,
                ClickMode::RandomInterval,
                ClickMode::Continuous,
                ClickMode::Pattern,
            ],
    {
        let v = vec![
            ClickMode::FixedInterval,
            ClickMode::RandomInterval,
            ClickMode::Continuous,
            ClickMode::Pattern,
        ];
        assert(v@ =~= seq![
            ClickMode::FixedInterval,
            ClickMode::RandomInterval,
            ClickMode::Continuous,
            ClickMode::Pattern,
        ]);
        v
    }
}

/// The mouse button a synthetic click targets. The mapping to the
/// platform's own button identifier happens at click-emission time,
/// outside the verified core.
#[derive(Clone, Copy, Debug, PartialEq, Eq, Structural)]
pub enum MouseButtonType {
    Left,
    Right,
    Middle,
}

impl MouseButtonType {
    /// Display label of the button.
    pub fn name(&self) -> (s: &'static str)
        ensures
            *self is Left ==> s@ == "Left"@,
            *self is Right ==> s@ == "Right"@,
            *self is Middle ==> s@ == "Middle"@,
    {
        match self {
            MouseButtonType::Left => "Left",
            MouseButtonType::Right => "Right",
            MouseButtonType::Middle => "Middle",
        }
    }

    /// Every button, in the order the selection UI lists them.
    pub fn all() -> (v: Vec<MouseButtonType>)
        ensures
            v@ == seq![MouseButtonType::Left, MouseButtonType::Right, MouseButtonType::Middle],
    {
        let v = vec![MouseButtonType::Left, MouseButtonType::Right, MouseButtonType::Middle];
        assert(v@ =~= seq![MouseButtonType::Left, MouseButtonType::Right, MouseButtonType::Middle]);
        v
    }
}

} // verus!
