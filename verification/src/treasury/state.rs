//! The state of the treasury.

use vstd::prelude::*;

verus! {

/// Who administers the treasury, the contract of the savings token, and the
/// contract of the savings market.
#[derive(Debug, PartialEq)]
pub struct Config {
    pub admin: String,
    pub aust_contract: String,
    pub anchor_smart_contract: String,
}

/// The mathematical value of a `Config`.
pub struct ConfigView {
    pub admin: Seq<char>,
    pub aust_contract: Seq<char>,
    pub anchor_smart_contract: Seq<char>,
}

impl View for Config {
    type V = ConfigView;

    open spec fn view(&self) -> ConfigView {
        ConfigView {
            admin: self.admin@,
            aust_contract: self.aust_contract@,
            anchor_smart_contract: self.anchor_smart_contract@,
        }
    }
}

impl Clone for Config {
    fn clone(&self) -> (copy: Self)
        ensures
            copy@ == self@,
    {
        Config {
            admin: self.admin.clone(),
            aust_contract: self.aust_contract.clone(),
            anchor_smart_contract: self.anchor_smart_contract.clone(),
        }
    }
}

/// The state of the treasury.
#[derive(Clone, Debug, PartialEq)]
pub struct State {
    pub config: Config,
}

/// The mathematical value of a `State`.
pub struct StateView {
    pub config: ConfigView,
}

impl View for State {
    type V = StateView;

    open spec fn view(&self) -> StateView {
        StateView { config: self.config@ }
    }
}

} // verus!
