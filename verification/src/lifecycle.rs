//! The configure-then-attach lifecycle of one dataplane instance, and the
//! interface-name rule applied before an interface is looked up.
use vstd::prelude::*;
use vstd::string::*;
use crate::abi;
use crate::config::{Nat64Config, lowered, validation_outcome};
use crate::error::Error;

verus! {

/// Whether `name` may be looked up as a Linux network interface: it is not
/// empty, holds no `/`, and is neither `.` nor `..`.
pub open spec fn interface_name_is_valid(name: Seq<char>) -> bool {
    &&& name.len() > 0
    &&& !name.contains('/')
    &&& name != seq!['.']
    &&& name != seq!['.', '.']
}

/// Refuses interface names that cannot name a Linux network interface.
pub fn check_interface_name(interface: &str) -> (r: Result<(), Error>)
    ensures
        r is Ok <==> interface_name_is_valid(interface@),
        r is Err ==> (r matches Err(Error::InvalidInterfaceName { interface: s }) && s@ == interface@),
{
    let n = interface.unicode_len();
    let mut has_slash = false;
    let mut i: usize = 0;
    while i < n
        invariant
            n == interface@.len(),
            i <= n,
            has_slash <==> exists|j: int| 0 <= j < i && interface@[j] == '/',
        decreases n - i,
    {
        let c = interface.get_char(i);
        if c == '/' {
            has_slash = true;
        }
        i = i + 1;
    }
    let single_dot = n == 1 && interface.get_char(0) == '.';
    let double_dot = n == 2 && interface.get_char(0) == '.' && interface.get_char(1) == '.';
    proof {
        if single_dot {
            assert(interface@ =~= seq!['.']);
        }
        if double_dot {
            assert(interface@ =~= seq!['.', '.']);
        }
        if n == 1 && interface@ == seq!['.'] {
            assert(interface@[0] == seq!['.'][0]);
        }
        if n == 2 && interface@ == seq!['.', '.'] {
            assert(interface@[0] == seq!['.', '.'][0]);
            assert(interface@[1] == seq!['.', '.'][1]);
        }
        if has_slash {
            let j = choose|j: int| 0 <= j < n && interface@[j] == '/';
            assert(interface@.contains('/'));
        }
    }
    if n == 0 || has_slash || single_dot || double_dot {
        Err(Error::InvalidInterfaceName { interface: interface.to_owned() })
    } else {
        Ok(())
    }
}

/// Configuration and attachment state of one dataplane instance.
pub struct Nat64State {
    config: Option<Nat64Config>,
    attached: bool,
}

/// The result of asking to configure a dataplane in state
/// (`attached`, ...) with policy `c`.
pub open spec fn configure_outcome(attached: bool, c: Nat64Config) -> Result<(), Error> {
    if attached {
        Err(Error::AlreadyAttached)
    } else {
        validation_outcome(c)
    }
}

/// The result of asking to attach a dataplane in the given state.
pub open spec fn attach_outcome(attached: bool, config: Option<Nat64Config>) -> Result<(), Error> {
    if attached {
        Err(Error::AlreadyAttached)
    } else if config is None {
        Err(Error::NotConfigured)
    } else {
        Ok(())
    }
}

impl Nat64State {
    /// The stored policy, if any.
    pub closed spec fn current_config(&self) -> Option<Nat64Config> {
        self.config
    }

    /// Whether the dataplane's classifiers are attached.
    pub closed spec fn is_attached_spec(&self) -> bool {
        self.attached
    }

    /// A freshly loaded dataplane: unconfigured and detached.
    pub fn new() -> (s: Self)
        ensures
            s.current_config() is None,
            !s.is_attached_spec(),
    {
        Nat64State { config: None, attached: false }
    }

    /// Whether the dataplane's classifiers are attached.
    pub fn is_attached(&self) -> (a: bool)
        ensures
            a == self.is_attached_spec(),
    {
        self.attached
    }

    /// The stored policy, if any.
    pub fn config(&self) -> (c: Option<&Nat64Config>)
        ensures
            c matches Some(r) ==> self.current_config() == Some(*r),
            c is None <==> self.current_config() is None,
    {
        match &self.config {
            Some(c) => Some(c),
            None => None,
        }
    }

    /// Validates and stores the translation policy used by a later attachment.
    ///
    /// An attached dataplane or an invalid policy is refused, and the state is
    /// then left as it was.
    pub fn configure(&mut self, config: Nat64Config) -> (r: Result<(), Error>)
        ensures
            r == configure_outcome(old(self).is_attached_spec(), config),
            final(self).is_attached_spec() == old(self).is_attached_spec(),
            r is Ok ==> final(self).current_config() == Some(config),
            r is Err ==> final(self).current_config() == old(self).current_config(),
    {
        if self.attached {
            return Err(Error::AlreadyAttached);
        }
        match config.validate() {
            Ok(()) => {
                self.config = Some(config);
                Ok(())
            },
            Err(e) => Err(e),
        }
    }

    /// Checks that an attachment may start: the dataplane is detached and configured.
    pub fn check_attach(&self) -> (r: Result<(), Error>)
        ensures
            r == attach_outcome(self.is_attached_spec(), self.current_config()),
    {
        if self.attached {
            Err(Error::AlreadyAttached)
        } else if self.config.is_none() {
            Err(Error::NotConfigured)
        } else {
            Ok(())
        }
    }

    /// The dataplane record for the stored policy and the resolved interfaces,
    /// or `None` when no policy is stored.
    pub fn dataplane_config(&self, bridge_ifindex: u32, uplink_ifindex: u32) -> (d: Option<abi::Nat64Config>)
        ensures
            d is None <==> self.current_config() is None,
            d matches Some(d) ==> lowered(self.current_config()->0, bridge_ifindex, uplink_ifindex, d),
    {
        match &self.config {
            Some(c) => Some(c.dataplane_config(bridge_ifindex, uplink_ifindex)),
            None => None,
        }
    }

    /// Records that both classifiers were attached.
    pub fn mark_attached(&mut self)
        ensures
            final(self).is_attached_spec(),
            final(self).current_config() == old(self).current_config(),
    {
        self.attached = true;
    }
}

/// Once attached, a dataplane refuses both a new policy and a second
/// attachment with `AlreadyAttached`, whatever the policy offered.
pub proof fn lemma_attached_is_final(config: Option<Nat64Config>, offered: Nat64Config)
    ensures
        configure_outcome(true, offered) == Err::<(), Error>(Error::AlreadyAttached),
        attach_outcome(true, config) == Err::<(), Error>(Error::AlreadyAttached),
{
}

/// A detached dataplane accepts exactly the policies that validate, and an
/// accepted policy makes the dataplane ready to attach.
pub proof fn lemma_configure_then_attach(offered: Nat64Config)
    ensures
        configure_outcome(false, offered) == validation_outcome(offered),
        validation_outcome(offered) is Ok ==> attach_outcome(false, Some(offered)) is Ok,
        attach_outcome(false, None) == Err::<(), Error>(Error::NotConfigured),
{
}

} // verus!
