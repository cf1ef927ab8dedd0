//! Outcome kinds, per-pair classification, and the text of a verification
//! record's message.

use vstd::prelude::*;

verus! {

/// The classification of one source/destination pair, by existence and byte
/// length. The five values are mutually exclusive.
#[derive(Clone, Copy, Debug, PartialEq, Eq, Hash, Structural)]
pub enum VerifyErrType {
    SrcMissing,
    DstMissing,
    SrcSmaller,
    DstSmaller,
    OK,
}

/// One verification record: an outcome kind together with a human-readable
/// message that embeds both paths and, for size mismatches, the byte delta.
#[derive(Clone, Debug)]
pub struct VerifyErr {
    pub kind: VerifyErrType,
    pub message: String,
}

/// What `compare_sizes` classifies a pair as, given the byte length of each
/// side (`None` where the side could not be probed). The destination is
/// consulted only when the source exists.
pub open spec fn spec_classify(src_len: Option<u64>, dst_len: Option<u64>) -> VerifyErrType {
    match src_len {
        None => VerifyErrType::SrcMissing,
        Some(s) => match dst_len {
            None => VerifyErrType::DstMissing,
            Some(d) => if s < d {
                VerifyErrType::SrcSmaller
            } else if s > d {
                VerifyErrType::DstSmaller
            } else {
                VerifyErrType::OK
            },
        },
    }
}

pub open spec fn digit_seq(d: nat) -> Seq<char> {
    if d == 0 {
        "0"@
    } else if d == 1 {
        "1"@
    } else if d == 2 {
        "2"@
    } else if d == 3 {
        "3"@
    } else if d == 4 {
        "4"@
    } else if d == 5 {
        "5"@
    } else if d == 6 {
        "6"@
    } else if d == 7 {
        "7"@
    } else if d == 8 {
        "8"@
    } else {
        "9"@
    }
}

/// The decimal digits of `n`, most significant first.
pub open spec fn dec_digits(n: nat) -> Seq<char>
    decreases n,
{
    if n < 10 {
        digit_seq(n)
    } else {
        dec_digits(n / 10) + digit_seq(n % 10)
    }
}

fn digit_literal(d: u64) -> (r: &'static str)
    requires
        d < 10,
    ensures
        r@ == digit_seq(d as nat),
{
    match d {
        0 => "0",
        1 => "1",
        2 => "2",
        3 => "3",
        4 => "4",
        5 => "5",
        6 => "6",
        7 => "7",
        8 => "8",
        _ => "9",
    }
}

/// Renders `n` in decimal.
pub fn u64_to_dec(n: u64) -> (r: String)
    ensures
        r@ == dec_digits(n as nat),
    decreases n,
{
    if n < 10 {
        String::from_str(digit_literal(n))
    } else {
        let mut r = u64_to_dec(n / 10);
        r.append(digit_literal(n % 10));
        r
    }
}

/// The message text of the record for a pair of paths with the given probed
/// byte lengths.
pub open spec fn spec_message(
    src: Seq<char>,
    dst: Seq<char>,
    src_len: Option<u64>,
    dst_len: Option<u64>,
) -> Seq<char> {
    match src_len {
        None => "The source, "@ + src + ", is missing for the destination, "@ + dst + "!"@,
        Some(s) => match dst_len {
            None => "The destination, "@ + dst + ", is missing for the source, "@ + src + "!"@,
            Some(d) => if s < d {
                "The source, "@ + src + ", is smaller than the destination, "@ + dst + ", by "@
                    + dec_digits((d - s) as nat) + " bytes."@
            } else if s > d {
                "The source, "@ + src + ", is bigger than the destination, "@ + dst + ", by "@
                    + dec_digits((s - d) as nat) + " bytes."@
            } else {
                "The source, "@ + src + ", matches with the destination, "@ + dst
            },
        },
    }
}

/// Classifies one source/destination pair from the byte length of each side
/// (`None` where the side could not be probed) and renders the record's
/// message. Pure: the probing itself is the caller's concern.
pub fn compare_sizes(src: &str, dst: &str, src_len: Option<u64>, dst_len: Option<u64>) -> (r:
    VerifyErr)
    ensures
        r.kind == spec_classify(src_len, dst_len),
        r.message@ == spec_message(src@, dst@, src_len, dst_len),
{
    match src_len {
        None => {
            let mut m = String::from_str("The source, ");
            m.append(src);
            m.append(", is missing for the destination, ");
            m.append(dst);
            m.append("!");
            VerifyErr { kind: VerifyErrType::SrcMissing, message: m }
        },
        Some(s) => match dst_len {
            None => {
                let mut m = String::from_str("The destination, ");
                m.append(dst);
                m.append(", is missing for the source, ");
                m.append(src);
                m.append("!");
                VerifyErr { kind: VerifyErrType::DstMissing, message: m }
            },
            Some(d) => {
                if s < d {
                    let mut m = String::from_str("The source, ");
                    m.append(src);
                    m.append(", is smaller than the destination, ");
                    m.append(dst);
                    m.append(", by ");
                    let delta = u64_to_dec(d - s);
                    m.append(delta.as_str());
                    m.append(" bytes.");
                    VerifyErr { kind: VerifyErrType::SrcSmaller, message: m }
                } else if s > d {
                    let mut m = String::from_str("The source, ");
                    m.append(src);
                    m.append(", is bigger than the destination, ");
                    m.append(dst);
                    m.append(", by ");
                    let delta = u64_to_dec(s - d);
                    m.append(delta.as_str());
                    m.append(" bytes.");
                    VerifyErr { kind: VerifyErrType::DstSmaller, message: m }
                } else {
                    let mut m = String::from_str("The source, ");
                    m.append(src);
                    m.append(", matches with the destination, ");
                    m.append(dst);
                    VerifyErr { kind: VerifyErrType::OK, message: m }
                }
            },
        },
    }
}

/// Admits every outcome kind.
pub fn verify_err_accept_all_filter(verify_err_type: &VerifyErrType) -> (r: bool)
    ensures
        r,
{
    true
}

/// Admits every outcome kind except a match.
pub fn verify_err_only_errors_filter(verify_err_type: &VerifyErrType) -> (r: bool)
    ensures
        r == (*verify_err_type != VerifyErrType::OK),
{
    *verify_err_type != VerifyErrType::OK
}

/// The two standard filter policies deciding which records reach the
/// observer. A policy never affects how records are counted.
#[derive(Clone, Copy, Debug, PartialEq, Eq, Structural)]
pub enum FilterPolicy {
    AcceptAll,
    ErrorsOnly,
}

impl FilterPolicy {
    /// Whether a record of kind `k` is handed to the observer.
    pub open spec fn admits(self, k: VerifyErrType) -> bool {
        match self {
            FilterPolicy::AcceptAll => true,
            FilterPolicy::ErrorsOnly => k != VerifyErrType::OK,
        }
    }

    pub fn apply(&self, k: &VerifyErrType) -> (r: bool)
        ensures
            r == self.admits(*k),
    {
        match self {
            FilterPolicy::AcceptAll => verify_err_accept_all_filter(k),
            FilterPolicy::ErrorsOnly => verify_err_only_errors_filter(k),
        }
    }
}

/// Classification is total and exclusive: the source's absence alone decides
/// `SrcMissing`; given the source, the destination's absence alone decides
/// `DstMissing`; given both, the order of the byte lengths decides exactly one
/// of `SrcSmaller`, `DstSmaller` and `OK`.
pub proof fn lemma_classify_correct(src_len: Option<u64>, dst_len: Option<u64>)
    ensures
        (spec_classify(src_len, dst_len) == VerifyErrType::SrcMissing) <==> src_len is None,
        src_len is Some ==> ((spec_classify(src_len, dst_len) == VerifyErrType::DstMissing)
            <==> dst_len is None),
        (src_len is Some && dst_len is Some) ==> {
            &&& (spec_classify(src_len, dst_len) == VerifyErrType::SrcSmaller) <==> src_len->0
                < dst_len->0
            &&& (spec_classify(src_len, dst_len) == VerifyErrType::DstSmaller) <==> src_len->0
                > dst_len->0
            &&& (spec_classify(src_len, dst_len) == VerifyErrType::OK) <==> src_len->0
                == dst_len->0
        },
{
}

} // verus!
