//! The reconstruction threshold of a pre-identity request: how many anonymity
//! revokers must cooperate to reveal the identity behind an account.

use vstd::prelude::*;
use crate::errors::WalletError;

verus! {

/// A threshold that was checked against the number of anonymity revokers it
/// is used with.
#[derive(Clone, Copy, Debug, PartialEq, Eq, Structural)]
pub struct Threshold {
    value: usize,
    revokers: usize,
}

/// The threshold used when the caller names none: all revokers but one, and
/// never fewer than one, so that a single revoker still suffices.
pub open spec fn default_threshold(revokers: nat) -> nat {
    if revokers >= 2 {
        (revokers - 1) as nat
    } else {
        1
    }
}

/// The threshold that a request asks for: the explicit one, or the default.
pub open spec fn requested_threshold(explicit: Option<usize>, revokers: nat) -> nat {
    match explicit {
        Some(value) => value as nat,
        None => default_threshold(revokers),
    }
}

/// Whether `value` may serve as a threshold among `revokers` revokers.
pub open spec fn threshold_in_bounds(value: nat, revokers: nat) -> bool {
    1 <= value <= revokers
}

impl Threshold {
    /// Every threshold lies between one and the number of revokers.
    #[verifier::type_invariant]
    spec fn in_bounds(self) -> bool {
        threshold_in_bounds(self.value as nat, self.revokers as nat)
    }

    pub closed spec fn value_spec(self) -> nat {
        self.value as nat
    }

    pub closed spec fn revokers_spec(self) -> nat {
        self.revokers as nat
    }

    /// Accepts `value` as the threshold among `revokers` revokers if it is at
    /// least one and at most `revokers`.
    pub fn new(value: usize, revokers: usize) -> (r: Result<Threshold, WalletError>)
        ensures
            match r {
                Ok(t) => threshold_in_bounds(value as nat, revokers as nat) && t.value_spec()
                    == value && t.revokers_spec() == revokers,
                Err(e) => !threshold_in_bounds(value as nat, revokers as nat) && e == (
                WalletError::Threshold { threshold: value, revokers }),
            },
    {
        if 1 <= value && value <= revokers {
            Ok(Threshold { value, revokers })
        } else {
            Err(WalletError::Threshold { threshold: value, revokers })
        }
    }

    /// The threshold for a registry of `revokers` revokers when the caller
    /// names none. An empty registry has no threshold.
    pub fn default_for(revokers: usize) -> (r: Result<Threshold, WalletError>)
        ensures
            match r {
                Ok(t) => revokers >= 1 && t.value_spec() == default_threshold(revokers as nat)
                    && t.revokers_spec() == revokers,
                Err(e) => revokers == 0 && e == WalletError::Context,
            },
    {
        if revokers == 0 {
            Err(WalletError::Context)
        } else if revokers >= 2 {
            Ok(Threshold { value: revokers - 1, revokers })
        } else {
            Ok(Threshold { value: 1, revokers })
        }
    }

    /// The threshold of a request over a registry of `revokers` revokers:
    /// the one that the caller names, if any and if it is within bounds, else
    /// the default. An empty registry fails before the threshold is looked
    /// at.
    pub fn for_request(explicit: Option<usize>, revokers: usize) -> (r: Result<
        Threshold,
        WalletError,
    >)
        ensures
            match r {
                Ok(t) => revokers >= 1 && t.revokers_spec() == revokers && t.value_spec()
                    == requested_threshold(explicit, revokers as nat) && threshold_in_bounds(
                    t.value_spec(),
                    revokers as nat,
                ),
                Err(e) => if revokers == 0 {
                    e == WalletError::Context
                } else {
                    explicit matches Some(value) && !threshold_in_bounds(
                        value as nat,
                        revokers as nat,
                    ) && e == (WalletError::Threshold { threshold: value, revokers })
                },
            },
    {
        if revokers == 0 {
            return Err(WalletError::Context);
        }
        match explicit {
            Some(value) => Threshold::new(value, revokers),
            None => Threshold::default_for(revokers),
        }
    }

    /// The number of revokers that must cooperate.
    pub fn value(&self) -> (v: usize)
        ensures
            v == self.value_spec(),
            threshold_in_bounds(v as nat, self.revokers_spec()),
    {
        proof {
            use_type_invariant(self);
        }
        self.value
    }

    /// The number of revokers the threshold was checked against.
    pub fn revokers(&self) -> (n: usize)
        ensures
            n == self.revokers_spec(),
            threshold_in_bounds(self.value_spec(), n as nat),
    {
        proof {
            use_type_invariant(self);
        }
        self.revokers
    }

    /// The threshold as the single byte in which requests carry it. Fails
    /// when it does not fit.
    pub fn encode(&self) -> (r: Result<u8, WalletError>)
        ensures
            match r {
                Ok(v) => v == self.value_spec() && v >= 1,
                Err(e) => self.value_spec() > 255 && e == (WalletError::Threshold {
                    threshold: self.value_spec() as usize,
                    revokers: self.revokers_spec() as usize,
                }),
            },
    {
        match self.to_byte() {
            Some(v) => Ok(v),
            None => Err(
                WalletError::Threshold { threshold: self.value(), revokers: self.revokers() },
            ),
        }
    }

    /// The threshold as the single byte in which requests carry it, if it
    /// fits.
    pub fn to_byte(&self) -> (b: Option<u8>)
        ensures
            match b {
                Some(v) => v == self.value_spec() && v >= 1,
                None => self.value_spec() > 255,
            },
    {
        proof {
            use_type_invariant(self);
        }
        if self.value <= 255 {
            Some(self.value as u8)
        } else {
            None
        }
    }
}

/// The default threshold lies within its bounds and equals
/// `max(revokers - 1, 1)`, for every registry with at least one revoker.
pub proof fn lemma_default_threshold_in_bounds(revokers: nat)
    requires
        revokers >= 1,
    ensures
        threshold_in_bounds(default_threshold(revokers), revokers),
        default_threshold(revokers) == if revokers - 1 >= 1 {
            revokers - 1
        } else {
            1
        },
{
}

/// Zero, and every value above the number of revokers, is out of bounds.
pub proof fn lemma_threshold_out_of_bounds(value: nat, revokers: nat)
    requires
        value == 0 || value > revokers,
    ensures
        !threshold_in_bounds(value, revokers),
{
}

} // verus!
