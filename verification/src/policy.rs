//! The filter's policy: which request header triggers a redirect, how that
//! policy is read from a configuration blob, and the store that publishes it.

use vstd::prelude::*;
use vstd::string::StringExecFns;
use crate::entries::{lemma_lookup_finds_first, lemma_lookup_none_iff_lacks, lookup};
use crate::json::{json_object, member_views, parse_object, Member};
use crate::text::text_of;

verus! {

/// The configuration field that carries the trigger header's name.
pub const CONFIG_FIELD: &'static str = "redirect_header_name";

/// What a [`Policy`] says, as plain text.
pub struct PolicyView {
    pub trigger_header_name: Seq<char>,
}

impl PolicyView {
    /// The policy that triggers on nothing.
    pub open spec fn inert() -> PolicyView {
        PolicyView { trigger_header_name: Seq::empty() }
    }

    /// A policy with an empty trigger name never redirects.
    pub open spec fn is_inert(self) -> bool {
        self.trigger_header_name.len() == 0
    }
}

/// An immutable snapshot of the configuration. Nothing changes the trigger
/// name once the policy is made; a reconfiguration makes a new policy.
#[derive(Debug, PartialEq, Eq)]
pub struct Policy {
    trigger_header_name: String,
}

impl View for Policy {
    type V = PolicyView;

    closed spec fn view(&self) -> PolicyView {
        PolicyView { trigger_header_name: self.trigger_header_name@ }
    }
}

impl Policy {
    /// A policy that triggers on the header called `trigger_header_name`.
    pub fn new(trigger_header_name: String) -> (policy: Policy)
        ensures
            policy@.trigger_header_name == trigger_header_name@,
    {
        Policy { trigger_header_name }
    }

    /// The policy in force before any configuration was loaded: its trigger
    /// name is empty.
    pub fn inert() -> (policy: Policy)
        ensures
            policy@ == PolicyView::inert(),
    {
        Policy { trigger_header_name: String::new() }
    }

    /// The name of the header that triggers a redirect.
    pub fn trigger_header_name(&self) -> (name: &str)
        ensures
            name@ == self@.trigger_header_name,
    {
        self.trigger_header_name.as_str()
    }

    /// Whether the trigger name is empty, so that the policy redirects
    /// nothing.
    pub fn is_inert(&self) -> (inert: bool)
        ensures
            inert == self@.is_inert(),
    {
        self.trigger_header_name.as_str().is_empty()
    }

    /// The policy for the text found under `redirect_header_name`: the text
    /// becomes the trigger name, and a configuration without it is malformed.
    pub fn from_field(field: Option<String>) -> (policy: Result<Policy, ConfigError>)
        ensures
            policy_views(policy) == policy_of_field(text_of(field)),
    {
        match field {
            Some(name) => Ok(Policy::new(name)),
            None => Err(ConfigError::Malformed),
        }
    }

    /// The policy that the members of a configuration object stand for.
    pub fn from_members(members: &Vec<Member>) -> (policy: Result<Policy, ConfigError>)
        ensures
            policy_views(policy) == policy_of_members(member_views(members@)),
    {
        Policy::from_field(read_field(members, CONFIG_FIELD))
    }

    /// Reads a policy from a configuration blob: a JSON object whose member
    /// `redirect_header_name` is a string. Other members are ignored.
    /// Anything else is malformed.
    pub fn decode(raw: &[u8]) -> (policy: Result<Policy, ConfigError>)
        ensures
            policy_views(policy) == decoded_policy(raw@),
    {
        match parse_object(raw) {
            Ok(members) => Policy::from_members(&members),
            Err(_) => Err(ConfigError::Malformed),
        }
    }
}

impl Clone for Policy {
    fn clone(&self) -> (copy: Policy)
        ensures
            copy@ == self@,
    {
        Policy { trigger_header_name: self.trigger_header_name.clone() }
    }
}

impl Default for Policy {
    fn default() -> (policy: Policy)
        ensures
            policy@ == PolicyView::inert(),
    {
        Policy::inert()
    }
}

/// Why a configuration was turned down.
#[derive(Debug, Clone, Copy, PartialEq, Eq, Structural)]
pub enum ConfigError {
    /// The blob is there but does not decode into the expected shape.
    Malformed,
}

/// What a decoding outcome says, as plain text.
pub open spec fn policy_views(outcome: Result<Policy, ConfigError>) -> Result<
    PolicyView,
    ConfigError,
> {
    match outcome {
        Ok(policy) => Ok(policy@),
        Err(e) => Err(e),
    }
}

/// The policy that a configuration field stands for.
pub open spec fn policy_of_field(field: Option<Seq<char>>) -> Result<PolicyView, ConfigError> {
    match field {
        Some(name) => Ok(PolicyView { trigger_header_name: name }),
        None => Err(ConfigError::Malformed),
    }
}

/// The text under `key` in a list of members: the text of the first member
/// with that key, and `None` where there is no such member or where its
/// value is no string.
pub open spec fn field_text(
    members: Seq<(Seq<char>, Option<Seq<char>>)>,
    key: Seq<char>,
) -> Option<Seq<char>> {
    match lookup(members, key) {
        Some(text) => text,
        None => None,
    }
}

/// The policy that the members of a configuration object stand for.
pub open spec fn policy_of_members(members: Seq<(Seq<char>, Option<Seq<char>>)>) -> Result<
    PolicyView,
    ConfigError,
> {
    policy_of_field(field_text(members, CONFIG_FIELD@))
}

/// The policy that a configuration blob stands for: that of its members
/// where it is a JSON object, and malformed where it is none.
pub open spec fn decoded_policy(raw: Seq<u8>) -> Result<PolicyView, ConfigError> {
    match json_object(raw) {
        Some(members) => policy_of_members(members),
        None => Err(ConfigError::Malformed),
    }
}

/// Looks for the text under `key` among the members of an object.
pub fn read_field(members: &Vec<Member>, key: &str) -> (field: Option<String>)
    ensures
        text_of(field) == field_text(member_views(members@), key@),
{
    let ghost entries = member_views(members@);
    let wanted = String::from_str(key);
    let mut i: usize = 0;
    while i < members.len()
        invariant
            i <= members.len(),
            wanted@ == key@,
            entries == member_views(members@),
            forall|j: int| 0 <= j < i ==> (#[trigger] entries[j]).0 != key@,
        decreases members.len() - i,
    {
        assert(entries[i as int] == members@[i as int]@);
        if members[i].key == wanted {
            proof {
                lemma_lookup_finds_first(entries, key@, i as int);
            }
            return members[i].text.clone();
        }
        i += 1;
    }
    proof {
        lemma_lookup_none_iff_lacks(entries, key@);
    }
    None
}

/// Holds the active policy. It starts out inert, and a load replaces the
/// policy as a whole or not at all.
#[derive(Debug)]
pub struct PolicyStore {
    active: Policy,
}

impl View for PolicyStore {
    type V = PolicyView;

    /// The active policy.
    closed spec fn view(&self) -> PolicyView {
        self.active@
    }
}

/// The active policy after `decoded` was offered to a store whose active
/// policy was `active`.
pub open spec fn published(
    active: PolicyView,
    decoded: Result<PolicyView, ConfigError>,
) -> PolicyView {
    match decoded {
        Ok(policy) => policy,
        Err(_) => active,
    }
}

/// The active policy after the host offered `raw` to a store whose active
/// policy was `active`. No configuration at all keeps the policy.
pub open spec fn configured(active: PolicyView, raw: Option<Seq<u8>>) -> PolicyView {
    match raw {
        Some(bytes) => published(active, decoded_policy(bytes)),
        None => active,
    }
}

/// What the host is told after it offered `raw`.
pub open spec fn configure_result(active: PolicyView, raw: Option<Seq<u8>>) -> Result<
    PolicyView,
    ConfigError,
> {
    match raw {
        Some(bytes) => decoded_policy(bytes),
        None => Ok(active),
    }
}

impl PolicyStore {
    /// A store whose active policy is inert.
    pub fn new() -> (store: PolicyStore)
        ensures
            store@ == PolicyView::inert(),
    {
        PolicyStore { active: Policy::inert() }
    }

    /// A snapshot of the active policy.
    pub fn current(&self) -> (policy: Policy)
        ensures
            policy@ == self@,
    {
        self.active.clone()
    }

    /// Makes a decoded policy the active one, or keeps the active policy
    /// where decoding failed. Hands the outcome back.
    pub fn publish(&mut self, decoded: Result<Policy, ConfigError>) -> (outcome: Result<
        Policy,
        ConfigError,
    >)
        ensures
            final(self)@ == published(old(self)@, policy_views(decoded)),
            policy_views(outcome) == policy_views(decoded),
    {
        match decoded {
            Ok(policy) => {
                let snapshot = policy.clone();
                self.active = policy;
                Ok(snapshot)
            },
            Err(e) => Err(e),
        }
    }

    /// Decodes `raw` and makes the result the active policy. A malformed
    /// blob is reported and leaves the active policy as it was.
    pub fn load(&mut self, raw: &[u8]) -> (outcome: Result<Policy, ConfigError>)
        ensures
            final(self)@ == published(old(self)@, decoded_policy(raw@)),
            policy_views(outcome) == decoded_policy(raw@),
    {
        self.publish(Policy::decode(raw))
    }

    /// Takes what the host has as configuration. Where it has none, the
    /// active policy stays and is handed back.
    pub fn on_configure(&mut self, raw: Option<&[u8]>) -> (outcome: Result<Policy, ConfigError>)
        ensures
            final(self)@ == configured(old(self)@, bytes_of(raw)),
            policy_views(outcome) == configure_result(old(self)@, bytes_of(raw)),
    {
        match raw {
            Some(bytes) => self.load(bytes),
            None => Ok(self.current()),
        }
    }
}

/// A reconfiguration swaps the policy as a whole: after a load the active
/// policy is the one that was active before or the one that was decoded,
/// never a mixture of the two.
pub proof fn lemma_load_swaps_whole_policy(active: PolicyView, raw: Seq<u8>)
    ensures
        published(active, decoded_policy(raw)) == active || decoded_policy(raw) == Ok::<
            PolicyView,
            ConfigError,
        >(published(active, decoded_policy(raw))),
{
}

/// A malformed configuration is reported as such and leaves the active
/// policy as it was: the inert one where none was ever loaded.
pub proof fn lemma_malformed_load_keeps_policy(active: PolicyView, raw: Seq<u8>)
    requires
        decoded_policy(raw) is Err,
    ensures
        decoded_policy(raw) == Err::<PolicyView, ConfigError>(ConfigError::Malformed),
        published(active, decoded_policy(raw)) == active,
        configured(active, Some(raw)) == active,
        published(PolicyView::inert(), decoded_policy(raw)).is_inert(),
{
}

/// A configuration is malformed exactly where it is no JSON object or the
/// object holds no text under `redirect_header_name`. Otherwise it decodes
/// to the policy that triggers on that text.
pub proof fn lemma_decoding_follows_field(raw: Seq<u8>)
    ensures
        decoded_policy(raw) is Err <==> (json_object(raw) matches Some(members) ==> field_text(
            members,
            CONFIG_FIELD@,
        ) is None),
        json_object(raw) matches Some(members) ==> (field_text(members, CONFIG_FIELD@) matches Some(
            name,
        ) ==> decoded_policy(raw) == Ok::<PolicyView, ConfigError>(
            PolicyView { trigger_header_name: name },
        )),
{
}

/// The bytes of an optional blob.
pub open spec fn bytes_of(raw: Option<&[u8]>) -> Option<Seq<u8>> {
    match raw {
        Some(bytes) => Some(bytes@),
        None => None,
    }
}

} // verus!
