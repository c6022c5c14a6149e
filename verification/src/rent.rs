//! The rent configuration, and the balance that makes an account exempt from rent.
use vstd::prelude::*;

verus! {

/// The part of a network's rent configuration that decides the minimum balance.
#[derive(Clone, Copy, Debug)]
pub struct Rent {
    /// Rental rate in lamports per byte.
    pub lamports_per_byte: u64,
    /// Little-endian bytes of the factor that the rate is multiplied by.
    pub exemption_threshold: [u8; 8],
}

/// Bytes that every account is charged for on top of its data.
pub const ACCOUNT_STORAGE_OVERHEAD: u64 = 128;

/// The longest account data that a minimum balance is defined for.
pub const MAX_PERMITTED_DATA_LENGTH: u64 = 10_485_760;

/// The highest rate that is accepted when the threshold is one.
pub const MAX_RATE_AT_THRESHOLD_ONE: u64 = 1_759_197_129_867;

/// The highest rate that is accepted when the threshold is two.
pub const MAX_RATE_AT_THRESHOLD_TWO: u64 = 879_598_564_933;

/// The threshold one, as little-endian bytes.
pub open spec fn threshold_one() -> Seq<u8> {
    seq![0u8, 0u8, 0u8, 0u8, 0u8, 0u8, 240u8, 63u8]
}

/// The threshold two, as little-endian bytes.
pub open spec fn threshold_two() -> Seq<u8> {
    seq![0u8, 0u8, 0u8, 0u8, 0u8, 0u8, 0u8, 64u8]
}

/// What the rate alone charges for an account with `data_len` bytes of data.
pub open spec fn storage_charge(lamports_per_byte: u64, data_len: usize) -> int {
    (ACCOUNT_STORAGE_OVERHEAD + data_len) * lamports_per_byte
}

/// What `solana_rent::Rent::minimum_balance` returns where the threshold is neither one
/// nor two, and the charge is scaled by a multiplication in floating point.
pub uninterp spec fn scaled_minimum_balance(
    lamports_per_byte: u64,
    exemption_threshold: Seq<u8>,
    data_len: usize,
) -> u64;

impl Rent {
    /// Whether this configuration gives a minimum balance for `data_len` bytes of data.
    pub open spec fn covers(self, data_len: usize) -> bool {
        &&& data_len <= MAX_PERMITTED_DATA_LENGTH
        &&& if self.exemption_threshold@ == threshold_one() {
            self.lamports_per_byte <= MAX_RATE_AT_THRESHOLD_ONE
        } else if self.exemption_threshold@ == threshold_two() {
            self.lamports_per_byte <= MAX_RATE_AT_THRESHOLD_TWO
        } else {
            storage_charge(self.lamports_per_byte, data_len) <= u64::MAX
        }
    }

    /// The balance from which an account with `data_len` bytes of data is exempt from rent.
    pub open spec fn minimum_balance_spec(self, data_len: usize) -> int {
        if self.exemption_threshold@ == threshold_one() {
            storage_charge(self.lamports_per_byte, data_len)
        } else if self.exemption_threshold@ == threshold_two() {
            2 * storage_charge(self.lamports_per_byte, data_len)
        } else {
            scaled_minimum_balance(
                self.lamports_per_byte,
                self.exemption_threshold@,
                data_len,
            ) as int
        }
    }

    /// Calls `solana_rent::Rent::minimum_balance` on the same rate and threshold.
    ///
    /// Trusted: at threshold one the result is the storage charge, at threshold two it is
    /// twice that, and at any other threshold it depends on the rate, the threshold and the
    /// length alone. `covers` leaves out the lengths and rates on which the call panics or its
    /// multiplication overflows.
    #[allow(deprecated)]
    #[verifier::external_body]
    pub(crate) fn minimum_balance(&self, data_len: usize) -> (balance: u64)
        requires
            self.covers(data_len),
        ensures
            self.exemption_threshold@ == threshold_one() ==> balance == storage_charge(
                self.lamports_per_byte,
                data_len,
            ),
            self.exemption_threshold@ == threshold_two() ==> balance == 2 * storage_charge(
                self.lamports_per_byte,
                data_len,
            ),
            self.exemption_threshold@ != threshold_one() && self.exemption_threshold@
                != threshold_two() ==> balance == scaled_minimum_balance(
                self.lamports_per_byte,
                self.exemption_threshold@,
                data_len,
            ),
    {
        let rent = solana_rent::Rent {
            lamports_per_byte: self.lamports_per_byte,
            exemption_threshold: self.exemption_threshold,
            ..solana_rent::Rent::default()
        };
        rent.minimum_balance(data_len)
    }

    /// Tells whether a minimum balance for `data_len` bytes of data is defined.
    pub fn is_defined_for(&self, data_len: usize) -> (defined: bool)
        ensures
            defined == self.covers(data_len),
    {
        if data_len as u64 > MAX_PERMITTED_DATA_LENGTH {
            return false;
        }
        let threshold = &self.exemption_threshold;
        let upper_zero: bool = threshold[0] == 0 && threshold[1] == 0 && threshold[2] == 0
            && threshold[3] == 0 && threshold[4] == 0 && threshold[5] == 0;
        assert(upper_zero && threshold@[6] == 240 && threshold@[7] == 63
            ==> threshold@ =~= threshold_one());
        assert(upper_zero && threshold@[6] == 0 && threshold@[7] == 64
            ==> threshold@ =~= threshold_two());
        if upper_zero && threshold[6] == 240 && threshold[7] == 63 {
            self.lamports_per_byte <= MAX_RATE_AT_THRESHOLD_ONE
        } else if upper_zero && threshold[6] == 0 && threshold[7] == 64 {
            self.lamports_per_byte <= MAX_RATE_AT_THRESHOLD_TWO
        } else {
            let bytes: u64 = ACCOUNT_STORAGE_OVERHEAD + data_len as u64;
            bytes.checked_mul(self.lamports_per_byte).is_some()
        }
    }
}

} // verus!
