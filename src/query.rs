//! Query strings of list requests.
//!
//! Each parameter that is set gives one `key=value` pair, in the order page,
//! page_size, status; the pairs are joined with `&` and follow a `?`. Values
//! are written as they are, without percent-encoding: callers pass values
//! that are already safe in an address. With no pair the path stays as it is.
use vstd::prelude::*;
use vstd::string::StrSliceExecFns;

use crate::client::join;
use crate::types::ListParams;

verus! {

/// The decimal digits, in order.
pub const DIGITS: &'static str = "0123456789";

/// The decimal notation of `n`, without leading zeros.
pub open spec fn decimal(n: nat) -> Seq<char>
    decreases n,
{
    if n < 10 {
        DIGITS@.subrange(n as int, n + 1int)
    } else {
        decimal(n / 10) + DIGITS@.subrange((n % 10) as int, (n % 10) + 1int)
    }
}

/// The pairs of the query string for `p`, in order.
pub open spec fn query_pairs(p: ListParams) -> Seq<Seq<char>> {
    let page = match p.page {
        Some(n) => seq!["page="@ + decimal(n as nat)],
        None => Seq::<Seq<char>>::empty(),
    };
    let page_size = match p.page_size {
        Some(n) => seq!["page_size="@ + decimal(n as nat)],
        None => Seq::<Seq<char>>::empty(),
    };
    let status = match p.status {
        Some(s) => seq!["status="@ + s@],
        None => Seq::<Seq<char>>::empty(),
    };
    page + page_size + status
}

/// The texts in `parts` joined with `&`.
pub open spec fn join_with_amp(parts: Seq<Seq<char>>) -> Seq<char>
    decreases parts.len(),
{
    if parts.len() == 0 {
        Seq::empty()
    } else if parts.len() == 1 {
        parts[0]
    } else {
        join_with_amp(parts.drop_last()) + "&"@ + parts.last()
    }
}

/// The path of a list request on `base` with parameters `params`.
pub open spec fn list_path_of(base: Seq<char>, params: Option<ListParams>) -> Seq<char> {
    match params {
        None => base,
        Some(p) => if query_pairs(p).len() == 0 {
            base
        } else {
            base + "?"@ + join_with_amp(query_pairs(p))
        },
    }
}

/// The decimal notation of `n`.
pub fn decimal_text(n: u32) -> (r: String)
    ensures
        r@ == decimal(n as nat),
    decreases n,
{
    proof {
        reveal_strlit("0123456789");
    }
    if n < 10 {
        DIGITS.substring_char(n as usize, n as usize + 1).to_string()
    } else {
        let mut r = decimal_text(n / 10);
        let d = (n % 10) as usize;
        r.append(DIGITS.substring_char(d, d + 1));
        r
    }
}

/// Appends `part` to the query `q` built from `parts`.
fn append_part(q: &mut String, Ghost(parts): Ghost<Seq<Seq<char>>>, part: &str)
    requires
        old(q)@ == join_with_amp(parts),
        old(q)@.len() == 0 <==> parts.len() == 0,
        part@.len() > 0,
    ensures
        final(q)@ == join_with_amp(parts.push(part@)),
        final(q)@.len() > 0,
{
    assert(parts.push(part@).drop_last() =~= parts);
    if q.as_str().is_empty() {
        q.append(part);
    } else {
        q.append("&");
        q.append(part);
    }
}

/// A `key=value` pair.
fn key_value(key_eq: &str, value: &str) -> (r: String)
    requires
        key_eq@.len() > 0,
    ensures
        r@ == key_eq@ + value@,
        r@.len() > 0,
{
    join(key_eq, value)
}

/// The query string for `p`: its pairs joined with `&`.
pub fn query_string(p: &ListParams) -> (r: String)
    ensures
        r@ == join_with_amp(query_pairs(*p)),
        r@.len() == 0 <==> query_pairs(*p).len() == 0,
{
    proof {
        reveal_strlit("page=");
        reveal_strlit("page_size=");
        reveal_strlit("status=");
    }
    let mut q = String::new();
    let ghost mut parts: Seq<Seq<char>> = Seq::empty();
    if let Some(n) = p.page {
        let part = key_value("page=", decimal_text(n).as_str());
        append_part(&mut q, Ghost(parts), part.as_str());
        proof {
            parts = parts.push(part@);
        }
    }
    if let Some(n) = p.page_size {
        let part = key_value("page_size=", decimal_text(n).as_str());
        append_part(&mut q, Ghost(parts), part.as_str());
        proof {
            parts = parts.push(part@);
        }
    }
    if let Some(s) = &p.status {
        let part = key_value("status=", s.as_str());
        append_part(&mut q, Ghost(parts), part.as_str());
        proof {
            parts = parts.push(part@);
        }
    }
    assert(parts =~= query_pairs(*p));
    q
}

/// The path of a list request: `base`, followed by `?` and the query string
/// when `params` gives at least one pair.
pub fn list_path(base: &str, params: Option<ListParams>) -> (r: String)
    ensures
        r@ == list_path_of(base@, params),
{
    match params {
        None => base.to_string(),
        Some(p) => {
            let q = query_string(&p);
            if q.as_str().is_empty() {
                base.to_string()
            } else {
                let with_mark = join(base, "?");
                join(with_mark.as_str(), q.as_str())
            }
        },
    }
}

} // verus!
