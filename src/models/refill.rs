use vstd::prelude::*;
use crate::encode::{encode_object, members_view, object_text, required, required_member, Encode};
use crate::json::{quote, quoted};

verus! {

/// How often a key's verifications are refilled.
#[derive(Debug, Clone, Copy, PartialEq, Eq, Structural)]
pub enum RefillInterval {
    /// Refill daily.
    Daily,
    /// Refill monthly.
    Monthly,
}

impl Encode for RefillInterval {
    open spec fn encoded(&self) -> Seq<char> {
        match *self {
            RefillInterval::Daily => quoted("daily"@),
            RefillInterval::Monthly => quoted("monthly"@),
        }
    }

    fn encode(&self) -> (r: String) {
        match self {
            RefillInterval::Daily => quote("daily"),
            RefillInterval::Monthly => quote("monthly"),
        }
    }
}

/// The state of a key's automatic refills.
#[derive(Debug, Clone, Copy, PartialEq, Eq, Structural)]
pub struct Refill {
    /// The number of verifications to refill.
    pub amount: usize,
    /// The interval at which to refill the verifications.
    pub interval: RefillInterval,
    /// When the key was last refilled (unix ms), if it has been; never
    /// sent.
    pub last_refilled_at: Option<usize>,
}

impl Refill {
    /// Creates a new refill.
    pub fn new(amount: usize, interval: RefillInterval) -> (r: Refill)
        ensures
            r == (Refill { amount, interval, last_refilled_at: None }),
    {
        Refill { amount, interval, last_refilled_at: None }
    }
}

impl Encode for Refill {
    open spec fn encoded(&self) -> Seq<char> {
        object_text(seq![required("amount"@, self.amount), required("interval"@, self.interval)])
    }

    fn encode(&self) -> (r: String) {
        let ms = vec![
            required_member("amount", &self.amount),
            required_member("interval", &self.interval),
        ];
        assert(members_view(ms@) =~= seq![
            required("amount"@, self.amount),
            required("interval"@, self.interval),
        ]);
        encode_object(&ms)
    }
}

} // verus!
