//! Request Handler: parses the size segment of a request target, dispatches
//! by method, rejects zero-size transfers with a client error, and pairs a
//! valid request with a Transfer Generator (download) or Sink (upload).

use vstd::prelude::*;
use vstd::string::{StrSliceExecFns, StringExecFns};
use crate::generator::Generator;
use crate::sink::Sink;

verus! {

pub const STATUS_OK: u16 = 200;

pub const STATUS_NO_CONTENT: u16 = 204;

pub const STATUS_BAD_REQUEST: u16 = 400;

/// A decimal digit.
pub open spec fn is_digit(c: char) -> bool {
    48 <= c as int <= 57
}

/// Every character of the sequence is a decimal digit.
pub open spec fn all_digits(s: Seq<char>) -> bool {
    forall|i: int| 0 <= i < s.len() ==> is_digit(#[trigger] s[i])
}

/// The non-negative integer a digit sequence denotes, most significant
/// digit first.
pub open spec fn dec_val(s: Seq<char>) -> int
    decreases s.len(),
{
    if s.len() == 0 {
        0
    } else {
        dec_val(s.drop_last()) * 10 + (s.last() as int - 48)
    }
}

/// The target segment parses as a size: non-empty, all digits, and the
/// value fits in 64 bits.
pub open spec fn parseable(s: Seq<char>) -> bool {
    s.len() > 0 && all_digits(s) && dec_val(s) <= u64::MAX
}

proof fn lemma_dec_val_nonneg(s: Seq<char>)
    requires
        all_digits(s),
    ensures
        dec_val(s) >= 0,
    decreases s.len(),
{
    if s.len() > 0 {
        assert(all_digits(s.drop_last())) by {
            assert(forall|i: int| 0 <= i < s.len() - 1 ==> s.drop_last()[i] == s[i]);
        }
        lemma_dec_val_nonneg(s.drop_last());
    }
}

/// A digit string denotes at least what any of its prefixes denotes.
proof fn lemma_dec_val_prefix_le(s: Seq<char>, i: int)
    requires
        all_digits(s),
        0 <= i <= s.len(),
    ensures
        dec_val(s.subrange(0, i)) <= dec_val(s),
    decreases s.len() - i,
{
    if i == s.len() {
        assert(s.subrange(0, i) =~= s);
    } else {
        lemma_dec_val_prefix_le(s, i + 1);
        let p = s.subrange(0, i + 1);
        assert(p.drop_last() =~= s.subrange(0, i));
        assert(all_digits(s.subrange(0, i))) by {
            assert(forall|j: int| 0 <= j < i ==> s.subrange(0, i)[j] == s[j]);
        }
        lemma_dec_val_nonneg(s.subrange(0, i));
        assert(dec_val(p) == dec_val(s.subrange(0, i)) * 10 + (p.last() as int - 48));
        assert(dec_val(s.subrange(0, i)) * 10 >= dec_val(s.subrange(0, i)));
    }
}

/// Parses a request-target segment as a byte count: `Some` exactly when the
/// segment is a non-empty string of decimal digits whose value fits in a
/// `u64`, and then the parsed value is that number.
pub fn parse_size(s: &str) -> (r: Option<u64>)
    ensures
        r is Some <==> parseable(s@),
        r matches Some(v) ==> v == dec_val(s@),
{
    let n = s.unicode_len();
    if n == 0 {
        return None;
    }
    let mut val: u64 = 0;
    let mut i: usize = 0;
    while i < n
        invariant
            0 < n == s@.len(),
            i <= n,
            all_digits(s@.subrange(0, i as int)),
            val == dec_val(s@.subrange(0, i as int)),
        decreases n - i,
    {
        let c = s.get_char(i);
        let u = c as u32;
        if u < 48 || u > 57 {
            proof {
                assert(!is_digit(s@[i as int]));
            }
            return None;
        }
        let d = (u - 48) as u64;
        proof {
            assert(s@.subrange(0, i + 1).drop_last() =~= s@.subrange(0, i as int));
            assert(s@.subrange(0, i + 1).last() == s@[i as int]);
            assert(all_digits(s@.subrange(0, i + 1))) by {
                assert(forall|j: int| 0 <= j < i + 1 ==> s@.subrange(0, i + 1)[j] == s@[j]);
            }
            assert(dec_val(s@.subrange(0, i + 1)) == val * 10 + d);
            lemma_dec_val_nonneg(s@.subrange(0, i as int));
        }
        let overflowed: bool;
        match val.checked_mul(10) {
            Some(m) => {
                match m.checked_add(d) {
                    Some(next) => {
                        val = next;
                        overflowed = false;
                    },
                    None => {
                        overflowed = true;
                    },
                }
            },
            None => {
                overflowed = true;
            },
        }
        if overflowed {
            proof {
                assert(dec_val(s@.subrange(0, i + 1)) > u64::MAX);
                if all_digits(s@) {
                    lemma_dec_val_prefix_le(s@, i + 1);
                }
            }
            return None;
        }
        i = i + 1;
        proof {
            assert(val == dec_val(s@.subrange(0, i as int)));
        }
    }
    proof {
        assert(s@.subrange(0, n as int) =~= s@);
    }
    Some(val)
}

/// The character for a single decimal digit.
fn digit_str(d: u64) -> (r: &'static str)
    requires
        d < 10,
    ensures
        r@.len() == 1,
        is_digit(r@[0]),
        r@[0] as int - 48 == d,
{
    proof {
        reveal_strlit("0");
        reveal_strlit("1");
        reveal_strlit("2");
        reveal_strlit("3");
        reveal_strlit("4");
        reveal_strlit("5");
        reveal_strlit("6");
        reveal_strlit("7");
        reveal_strlit("8");
        reveal_strlit("9");
    }
    match d {
        0 => "0",
        1 => "1",
        2 => "2",
        3 => "3",
        4 => "4",
        5 => "5",
        6 => "6",
        7 => "7",
        8 => "8",
        _ => "9",
    }
}

/// Encodes a byte count as the decimal target segment the driver requests,
/// the exact inverse of `parse_size` on everything it produces.
pub fn format_size(n: u64) -> (s: String)
    ensures
        parseable(s@),
        dec_val(s@) == n,
    decreases n,
{
    if n < 10 {
        let s = String::from_str(digit_str(n));
        proof {
            assert(s@.drop_last() =~= Seq::<char>::empty());
            assert(dec_val(Seq::<char>::empty()) == 0);
        }
        s
    } else {
        let mut s = format_size(n / 10);
        let ghost prefix = s@;
        let d = digit_str(n % 10);
        s.append(d);
        proof {
            assert(s@.drop_last() =~= prefix);
            assert(s@.last() == d@[0]);
            assert(all_digits(s@)) by {
                assert(forall|i: int| 0 <= i < prefix.len() ==> s@[i] == prefix[i]);
            }
            assert(dec_val(s@) == dec_val(prefix) * 10 + (n % 10));
        }
        s
    }
}

/// The request's direction, selected by HTTP method: GET downloads, PUT
/// uploads.
#[derive(Clone, Copy, PartialEq, Eq, Structural, Debug)]
pub enum Method {
    Get,
    Put,
}

/// What to do with a request: reject it with a client error, or run a
/// transfer of the parsed size in the method's direction.
#[derive(Clone, Copy, PartialEq, Eq, Structural, Debug)]
pub enum RequestPlan {
    Reject,
    Download { size: u64 },
    Upload { size: u64 },
}

/// Maps a request to a plan: an unparseable size segment is rejected;
/// otherwise GET plans a download and PUT an upload of the parsed size.
/// (A zero size is rejected later, by the handler itself.)
pub fn plan_request(method: Method, target: &str) -> (r: RequestPlan)
    ensures
        r is Reject <==> !parseable(target@),
        parseable(target@) && method is Get ==> r == (RequestPlan::Download {
            size: dec_val(target@) as u64,
        }),
        parseable(target@) && method is Put ==> r == (RequestPlan::Upload {
            size: dec_val(target@) as u64,
        }),
{
    match parse_size(target) {
        None => RequestPlan::Reject,
        Some(size) => match method {
            Method::Get => RequestPlan::Download { size },
            Method::Put => RequestPlan::Upload { size },
        },
    }
}

/// A download response: either a client error or an exact-length stream.
pub enum GetResponse {
    BadRequest,
    Stream { content_length: u64, body: Generator },
}

/// Download handler decision: size zero yields the client error and no
/// transfer; any other size yields a 200 response that declares exactly
/// `size` bytes and a fresh generator for them.
pub fn handle_get(size: u64) -> (r: GetResponse)
    ensures
        size == 0 <==> r is BadRequest,
        r matches GetResponse::Stream { content_length, body } ==> {
            &&& content_length == size
            &&& body.wf()
            &&& body.requested == size
            &&& body.sent == 0
        },
{
    if size == 0 {
        GetResponse::BadRequest
    } else {
        GetResponse::Stream { content_length: size, body: Generator::new(size) }
    }
}

/// Upload handler decision: size zero yields the client error and no
/// transfer; any other size yields a fresh sink for exactly `size` bytes.
pub fn handle_put(size: u64) -> (r: Option<Sink>)
    ensures
        size == 0 <==> r is None,
        r matches Some(sink) ==> {
            &&& sink.wf()
            &&& sink.requested == size
            &&& sink.received == 0
        },
{
    if size == 0 {
        None
    } else {
        Some(Sink::new(size))
    }
}

/// Upload response decision: success (204, no content) is owed exactly when
/// the sink saw every requested byte; a short stream gets no success
/// response at all, so the peer observes the broken transfer.
pub fn upload_response(sink: &Sink) -> (r: Option<u16>)
    ensures
        r == if sink.complete() {
            Some(STATUS_NO_CONTENT)
        } else {
            None::<u16>
        },
{
    if sink.received >= sink.requested {
        Some(STATUS_NO_CONTENT)
    } else {
        None
    }
}

} // verus!
