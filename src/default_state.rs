use vstd::prelude::*;

verus! {

/// The type of the default state.
#[derive(Debug, Clone, Copy, PartialEq, Eq, Structural)]
pub enum DefaultStateType {
    Custom,
    LastStates,
}

/// Default brightness state.
#[derive(Debug, Clone, Copy, PartialEq, Eq, Structural)]
pub struct DefaultBrightnessState {
    pub kind: DefaultStateType,
    pub value: u8,
}

/// The type of the default power state.
#[derive(Debug, Clone, Copy, PartialEq, Eq, Structural)]
pub enum DefaultPowerType {
    AlwaysOn,
    LastStates,
}

/// Whether two strings hold the same characters.
fn same_text(a: &str, b: &str) -> (r: bool)
    ensures
        r == (a@ == b@),
{
    a.to_owned() == b.to_owned()
}

impl DefaultStateType {
    /// The wire tag of each variant.
    pub open spec fn spec_tag(self) -> Seq<char> {
        match self {
            DefaultStateType::Custom => "custom"@,
            DefaultStateType::LastStates => "last_states"@,
        }
    }

    /// The variant whose wire tag is `s`, if any.
    pub open spec fn spec_from_tag(s: Seq<char>) -> Option<DefaultStateType> {
        if s == "custom"@ {
            Some(DefaultStateType::Custom)
        } else if s == "last_states"@ {
            Some(DefaultStateType::LastStates)
        } else {
            None
        }
    }

    pub fn tag(&self) -> (r: &'static str)
        ensures
            r@ == self.spec_tag(),
    {
        match self {
            DefaultStateType::Custom => "custom",
            DefaultStateType::LastStates => "last_states",
        }
    }

    /// Reads a wire tag; an unknown tag gives `None`.
    pub fn from_tag(s: &str) -> (r: Option<DefaultStateType>)
        ensures
            r == Self::spec_from_tag(s@),
    {
        if same_text(s, "custom") {
            Some(DefaultStateType::Custom)
        } else if same_text(s, "last_states") {
            Some(DefaultStateType::LastStates)
        } else {
            None
        }
    }
}

impl DefaultPowerType {
    /// The wire tag of each variant.
    pub open spec fn spec_tag(self) -> Seq<char> {
        match self {
            DefaultPowerType::AlwaysOn => "always_on"@,
            DefaultPowerType::LastStates => "last_states"@,
        }
    }

    /// The variant whose wire tag is `s`, if any.
    pub open spec fn spec_from_tag(s: Seq<char>) -> Option<DefaultPowerType> {
        if s == "always_on"@ {
            Some(DefaultPowerType::AlwaysOn)
        } else if s == "last_states"@ {
            Some(DefaultPowerType::LastStates)
        } else {
            None
        }
    }

    pub fn tag(&self) -> (r: &'static str)
        ensures
            r@ == self.spec_tag(),
    {
        match self {
            DefaultPowerType::AlwaysOn => "always_on",
            DefaultPowerType::LastStates => "last_states",
        }
    }

    /// Reads a wire tag; an unknown tag gives `None`.
    pub fn from_tag(s: &str) -> (r: Option<DefaultPowerType>)
        ensures
            r == Self::spec_from_tag(s@),
    {
        if same_text(s, "always_on") {
            Some(DefaultPowerType::AlwaysOn)
        } else if same_text(s, "last_states") {
            Some(DefaultPowerType::LastStates)
        } else {
            None
        }
    }
}

impl DefaultBrightnessState {
    /// Builds the state from its wire form: a type tag and a value.
    /// An unknown tag gives `None`.
    pub fn from_wire(tag: &str, value: u8) -> (r: Option<DefaultBrightnessState>)
        ensures
            r == (match DefaultStateType::spec_from_tag(tag@) {
                Some(kind) => Some(DefaultBrightnessState { kind, value }),
                None => None,
            }),
    {
        match DefaultStateType::from_tag(tag) {
            Some(kind) => Some(DefaultBrightnessState { kind, value }),
            None => None,
        }
    }
}

/// Reading back the tag of a default-state type gives that type.
pub proof fn lemma_state_tag_round_trip(t: DefaultStateType)
    ensures
        DefaultStateType::spec_from_tag(t.spec_tag()) == Some(t),
{
    reveal_strlit("custom");
    reveal_strlit("last_states");
    assert("last_states"@.len() != "custom"@.len());
}

/// Reading back the tag of a default power type gives that type.
pub proof fn lemma_power_tag_round_trip(t: DefaultPowerType)
    ensures
        DefaultPowerType::spec_from_tag(t.spec_tag()) == Some(t),
{
    reveal_strlit("always_on");
    reveal_strlit("last_states");
    assert("last_states"@.len() != "always_on"@.len());
}

} // verus!
