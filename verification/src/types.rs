//! Where and how the proceeds of a pending swap are to be sent.
use vstd::prelude::*;

use crate::text::{duplicate_opt_string, str_to_owned};

verus! {

/// The recipient of a pending swap: its address, the IBC channel to send over
/// (none for a transfer on this chain), and the denomination it is to receive.
#[derive(Debug, Clone, PartialEq, Eq)]
pub struct RecipientParameters {
    pub recipient_address: String,
    pub channel_id: Option<String>,
    pub denom_out: String,
}

pub struct RecipientView {
    pub recipient_address: Seq<char>,
    pub channel_id: Option<Seq<char>>,
    pub denom_out: Seq<char>,
}

impl DeepView for RecipientParameters {
    type V = RecipientView;

    open spec fn deep_view(&self) -> RecipientView {
        RecipientView {
            recipient_address: self.recipient_address@,
            channel_id: self.channel_id.deep_view(),
            denom_out: self.denom_out@,
        }
    }
}

impl RecipientParameters {
    /// A copy of the parameters.
    pub fn duplicate(&self) -> (res: RecipientParameters)
        ensures
            res.deep_view() == self.deep_view(),
    {
        RecipientParameters {
            recipient_address: str_to_owned(self.recipient_address.as_str()),
            channel_id: duplicate_opt_string(&self.channel_id),
            denom_out: str_to_owned(self.denom_out.as_str()),
        }
    }
}

} // verus!
