use vstd::prelude::*;

use crate::passwords::{add_record_spec, WifiPasswords};
use crate::profile::{parse, parse_result_view, record_of_document, CredentialRecord, ParseError};
use crate::wide::{decode_wide, wide_text, DecodeError};

verus! {

/// Why one step of the walk yielded nothing; each is recovered from by
/// skipping what it concerns.
#[derive(Debug, Clone, Copy, PartialEq, Eq, Structural)]
pub enum Failure {
    /// The service could not list its interfaces (status code).
    Interfaces(u32),
    /// The service could not list one interface's profiles (status code).
    Profiles(u32),
    /// The service could not return one profile's document (status code).
    Fetch(u32),
    /// The document buffer was not terminated within the bound.
    Decode(DecodeError),
    /// The document gave no record.
    Parse(ParseError),
}

/// Where the walk stands. `interfaces` and `profiles` are the counts that
/// the service reported; `interface` and `profile` index into them.
#[derive(Debug, Clone, Copy, PartialEq, Eq, Structural)]
pub enum WalkState {
    Start,
    AtInterface { interface: usize, interfaces: usize },
    AtProfile { interface: usize, interfaces: usize, profile: usize, profiles: usize },
    Done,
}

/// What the service is to be asked next.
#[derive(Debug, Clone, Copy, PartialEq, Eq, Structural)]
pub enum Action {
    /// List the wireless interfaces.
    ListInterfaces,
    /// List the stored profiles of interface number `interface`.
    ListProfiles { interface: usize },
    /// Fetch, with its key in plaintext, the document of profile number
    /// `profile` of interface number `interface`.
    FetchProfile { interface: usize, profile: usize },
    /// Every interface and profile has been visited.
    Finished,
}

pub open spec fn state_ok(s: WalkState) -> bool {
    match s {
        WalkState::AtInterface { interface, interfaces } => interface < interfaces,
        WalkState::AtProfile { interface, interfaces, profile, profiles } => interface < interfaces && profile < profiles,
        _ => true,
    }
}

pub open spec fn action_of(s: WalkState) -> Action {
    match s {
        WalkState::Start => Action::ListInterfaces,
        WalkState::AtInterface { interface, .. } => Action::ListProfiles { interface },
        WalkState::AtProfile { interface, profile, .. } => Action::FetchProfile { interface, profile },
        WalkState::Done => Action::Finished,
    }
}

/// The state after interface number `interface` of `interfaces` is done.
pub open spec fn after_interface(interface: usize, interfaces: usize) -> WalkState {
    if interface + 1 < interfaces {
        WalkState::AtInterface { interface: (interface + 1) as usize, interfaces }
    } else {
        WalkState::Done
    }
}

/// The state after the service answered the listing of interfaces.
pub open spec fn after_interfaces_listed(listed: Result<usize, u32>) -> WalkState {
    match listed {
        Ok(n) => if n > 0 { WalkState::AtInterface { interface: 0, interfaces: n } } else { WalkState::Done },
        Err(_) => WalkState::Done,
    }
}

/// The state after the service answered the listing of the profiles of
/// interface number `interface` of `interfaces`.
pub open spec fn after_profiles_listed(interface: usize, interfaces: usize, listed: Result<usize, u32>) -> WalkState {
    match listed {
        Ok(m) => if m > 0 {
            WalkState::AtProfile { interface, interfaces, profile: 0, profiles: m }
        } else {
            after_interface(interface, interfaces)
        },
        Err(_) => after_interface(interface, interfaces),
    }
}

/// The state after profile number `profile` of `profiles` was fetched.
pub open spec fn after_profile(interface: usize, interfaces: usize, profile: usize, profiles: usize) -> WalkState {
    if profile + 1 < profiles {
        WalkState::AtProfile { interface, interfaces, profile: (profile + 1) as usize, profiles }
    } else {
        after_interface(interface, interfaces)
    }
}

/// The record that a fetched document buffer gives, or why it gives none.
pub open spec fn record_of_units(units: Seq<u16>) -> Result<(Seq<char>, Option<Seq<char>>), Failure> {
    match wide_text(units) {
        None => Err(Failure::Decode(DecodeError::Unterminated)),
        Some(text) => match record_of_document(text) {
            Err(e) => Err(Failure::Parse(e)),
            Ok(rec) => Ok(rec),
        },
    }
}

/// What a fetched profile adds to the map: its record's secret, if any.
pub open spec fn absorb_fetched(m: Map<Seq<char>, Seq<char>>, fetched: Result<Seq<u16>, u32>) -> Map<Seq<char>, Seq<char>> {
    match fetched {
        Ok(units) => match record_of_units(units) {
            Ok(rec) => add_record_spec(m, rec),
            Err(_) => m,
        },
        Err(_) => m,
    }
}

/// The failure that a fetched profile reports, if any.
pub open spec fn fetch_failure(fetched: Result<Seq<u16>, u32>) -> Option<Failure> {
    match fetched {
        Ok(units) => match record_of_units(units) {
            Ok(_) => None,
            Err(f) => Some(f),
        },
        Err(code) => Some(Failure::Fetch(code)),
    }
}

pub open spec fn fetched_view(fetched: Result<Vec<u16>, u32>) -> Result<Seq<u16>, u32> {
    match fetched {
        Ok(units) => Ok(units@),
        Err(code) => Err(code),
    }
}

/// The outcome of a call to the service: the value when `status` is zero,
/// the status code itself otherwise.
pub fn status_outcome<T>(status: u32, value: T) -> (r: Result<T, u32>)
    ensures
        status == 0 ==> r == Ok::<T, u32>(value),
        status != 0 ==> r == Err::<T, u32>(status),
{
    if status == 0 {
        Ok(value)
    } else {
        Err(status)
    }
}

/// Decodes a profile's document buffer and extracts its record.
pub fn record_from_units(units: &[u16]) -> (r: Result<CredentialRecord, Failure>)
    ensures
        match r {
            Ok(rec) => record_of_units(units@) == Ok::<_, Failure>(rec@),
            Err(f) => record_of_units(units@) == Err::<(Seq<char>, Option<Seq<char>>), _>(f),
        },
{
    match decode_wide(units) {
        Err(e) => Err(Failure::Decode(e)),
        Ok(text) => {
            let parsed = parse(text.as_str());
            assert(parse_result_view(parsed) == record_of_document(text@));
            match parsed {
                Err(e) => Err(Failure::Parse(e)),
                Ok(rec) => Ok(rec),
            }
        },
    }
}

/// The walk over the service's interfaces and their profiles, with the
/// secrets recovered so far.
pub struct Walk {
    state: WalkState,
    passwords: WifiPasswords,
}

impl Walk {
    pub closed spec fn current(&self) -> WalkState {
        self.state
    }

    pub closed spec fn found(&self) -> Map<Seq<char>, Seq<char>> {
        self.passwords@
    }

    pub closed spec fn wf(&self) -> bool {
        self.passwords.wf() && state_ok(self.state)
    }

    /// A walk that has asked nothing yet.
    pub fn new() -> (r: Self)
        ensures
            r.wf(),
            r.current() == WalkState::Start,
            r.found() == Map::<Seq<char>, Seq<char>>::empty(),
    {
        Walk { state: WalkState::Start, passwords: WifiPasswords::new() }
    }

    /// What the service is to be asked next.
    pub fn next_action(&self) -> (r: Action)
        ensures
            r == action_of(self.current()),
    {
        match self.state {
            WalkState::Start => Action::ListInterfaces,
            WalkState::AtInterface { interface, .. } => Action::ListProfiles { interface },
            WalkState::AtProfile { interface, profile, .. } => Action::FetchProfile { interface, profile },
            WalkState::Done => Action::Finished,
        }
    }

    /// Takes the service's answer to the listing of interfaces: the number
    /// of interfaces, or a status code. Out of turn, it changes nothing.
    pub fn interfaces_listed(&mut self, listed: Result<usize, u32>) -> (r: Option<Failure>)
        requires
            old(self).wf(),
        ensures
            final(self).wf(),
            final(self).found() == old(self).found(),
            old(self).current() == WalkState::Start ==> final(self).current() == after_interfaces_listed(listed)
                && r == match listed { Ok(_) => None, Err(code) => Some(Failure::Interfaces(code)) },
            old(self).current() != WalkState::Start ==> final(self).current() == old(self).current() && r is None,
    {
        match self.state {
            WalkState::Start => match listed {
                Ok(n) => {
                    self.state = if n > 0 { WalkState::AtInterface { interface: 0, interfaces: n } } else { WalkState::Done };
                    None
                },
                Err(code) => {
                    self.state = WalkState::Done;
                    Some(Failure::Interfaces(code))
                },
            },
            _ => None,
        }
    }

    fn finish_interface(&mut self, interface: usize, interfaces: usize)
        requires
            interface < interfaces,
        ensures
            final(self).state == after_interface(interface, interfaces),
            final(self).passwords == old(self).passwords,
    {
        self.state = if interface + 1 < interfaces {
            WalkState::AtInterface { interface: interface + 1, interfaces }
        } else {
            WalkState::Done
        };
    }

    /// Takes the service's answer to the listing of the current interface's
    /// profiles: their number, or a status code. Out of turn, it changes
    /// nothing.
    pub fn profiles_listed(&mut self, listed: Result<usize, u32>) -> (r: Option<Failure>)
        requires
            old(self).wf(),
        ensures
            final(self).wf(),
            final(self).found() == old(self).found(),
            match old(self).current() {
                WalkState::AtInterface { interface, interfaces } =>
                    final(self).current() == after_profiles_listed(interface, interfaces, listed)
                    && r == match listed { Ok(_) => None, Err(code) => Some(Failure::Profiles(code)) },
                _ => final(self).current() == old(self).current() && r is None,
            },
    {
        match self.state {
            WalkState::AtInterface { interface, interfaces } => match listed {
                Ok(m) => {
                    if m > 0 {
                        self.state = WalkState::AtProfile { interface, interfaces, profile: 0, profiles: m };
                    } else {
                        self.finish_interface(interface, interfaces);
                    }
                    None
                },
                Err(code) => {
                    self.finish_interface(interface, interfaces);
                    Some(Failure::Profiles(code))
                },
            },
            _ => None,
        }
    }

    /// Takes the service's answer to the fetch of the current profile's
    /// document: its wide-character buffer, or a status code. A record with
    /// a secret is added to the map. Out of turn, it changes nothing.
    pub fn profile_fetched(&mut self, fetched: Result<Vec<u16>, u32>) -> (r: Option<Failure>)
        requires
            old(self).wf(),
        ensures
            final(self).wf(),
            match old(self).current() {
                WalkState::AtProfile { interface, interfaces, profile, profiles } =>
                    final(self).current() == after_profile(interface, interfaces, profile, profiles)
                    && final(self).found() == absorb_fetched(old(self).found(), fetched_view(fetched))
                    && r == fetch_failure(fetched_view(fetched)),
                _ => final(self).current() == old(self).current() && final(self).found() == old(self).found()
                    && r is None,
            },
    {
        match self.state {
            WalkState::AtProfile { interface, interfaces, profile, profiles } => {
                let failure = match fetched {
                    Err(code) => Some(Failure::Fetch(code)),
                    Ok(units) => match record_from_units(units.as_slice()) {
                        Err(f) => Some(f),
                        Ok(rec) => {
                            self.passwords.add_record(rec);
                            None
                        },
                    },
                };
                if profile + 1 < profiles {
                    self.state = WalkState::AtProfile { interface, interfaces, profile: profile + 1, profiles };
                } else {
                    self.finish_interface(interface, interfaces);
                }
                failure
            },
            _ => None,
        }
    }

    /// The secrets recovered so far.
    pub fn passwords(&self) -> (r: &WifiPasswords)
        requires
            self.wf(),
        ensures
            r.wf(),
            r@ == self.found(),
    {
        &self.passwords
    }
}

} // verus!
