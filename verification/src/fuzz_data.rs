//! Naming helpers of the trading scenarios: the ticker of a token
//! identifier and the scenario address of its pair.

use vstd::prelude::*;

verus! {

/// Whether `i` falls on a UTF-8 character boundary of `bytes`.
pub open spec fn on_char_boundary(bytes: Seq<u8>, i: int) -> bool {
    i == bytes.len() || (0 <= i < bytes.len() && !(0x80 <= bytes[i] < 0xc0))
}

/// The bytes of `str:`.
pub open spec fn str_prefix() -> Seq<u8> {
    seq![115u8, 116u8, 114u8, 58u8]
}

/// The identifier without a leading `str:`.
pub open spec fn spec_strip_str_prefix(id: Seq<u8>) -> Seq<u8> {
    if id.subrange(0, 4) == str_prefix() {
        id.subrange(4, id.len() as int)
    } else {
        id
    }
}

/// The bytes before the first dash (all of them without a dash).
pub open spec fn spec_before_dash(s: Seq<u8>) -> Seq<u8> {
    if exists|i: int| 0 <= i < s.len() && s[i] == 45 {
        let i = choose|i: int| 0 <= i < s.len() && s[i] == 45 && forall|j: int| 0 <= j < i ==> s[j] != 45;
        s.subrange(0, i)
    } else {
        s
    }
}

/// The ticker of a token identifier: without `str:`, up to the dash.
pub open spec fn spec_ticker(id: Seq<u8>) -> Seq<u8> {
    spec_before_dash(spec_strip_str_prefix(id))
}

/// The ticker of the UTF-8 token identifier `id`, such as `GTK` for
/// `str:GTK-123456`. Its first four bytes must end on a character boundary.
pub fn get_ticker(id: &[u8]) -> (r: Vec<u8>)
    requires
        id@.len() >= 4,
        on_char_boundary(id@, 4),
    ensures
        r@ == spec_ticker(id@),
{
    let n = id.len();
    let has_prefix = id[0] == 115u8 && id[1] == 116u8 && id[2] == 114u8 && id[3] == 58u8;
    proof {
        assert(has_prefix == (id@.subrange(0, 4) =~= str_prefix()));
    }
    let start: usize = if has_prefix { 4 } else { 0 };
    let ghost body = spec_strip_str_prefix(id@);
    assert(body =~= id@.subrange(start as int, n as int));
    let mut out: Vec<u8> = Vec::new();
    let mut i = start;
    while i < n
        invariant
            start <= i <= n,
            n == id@.len(),
            body =~= id@.subrange(start as int, n as int),
            body == spec_strip_str_prefix(id@),
            out@ =~= id@.subrange(start as int, i as int),
            forall|j: int| start <= j < i ==> id@[j] != 45,
        decreases n - i,
    {
        if id[i] == 45u8 {
            proof {
                let k = (i - start) as int;
                assert(body[k] == 45);
                assert(forall|j: int| 0 <= j < k ==> body[j] != 45 && body[j] == id@[start + j]);
                assert(0 <= k < body.len() && body[k] == 45 && forall|j: int| 0 <= j < k ==> body[j] != 45);
                assert(exists|c: int| 0 <= c < body.len() && body[c] == 45 && forall|j: int| 0 <= j < c ==> body[j] != 45);
                let c = choose|c: int| 0 <= c < body.len() && body[c] == 45 && forall|j: int| 0 <= j < c ==> body[j] != 45;
                assert(c == k) by {
                    if c < k {
                        assert(body[c] != 45);
                    }
                    if k < c {
                        assert(body[k] != 45);
                    }
                }
                assert(out@ =~= body.subrange(0, k));
            }
            return out;
        }
        out.push(id[i]);
        i = i + 1;
    }
    proof {
        assert(!(exists|j: int| 0 <= j < body.len() && body[j] == 45)) by {
            assert forall|j: int| 0 <= j < body.len() implies body[j] != 45 by {
                assert(body[j] == id@[start + j]);
            }
        }
    }
    out
}

/// The bytes of `sc:`.
pub open spec fn sc_prefix() -> Seq<u8> {
    seq![115u8, 99u8, 58u8]
}

/// The bytes of `_pair`.
pub open spec fn pair_suffix() -> Seq<u8> {
    seq![95u8, 112u8, 97u8, 105u8, 114u8]
}

/// The scenario address of the pair of a token: `sc:{ticker}_pair`.
pub fn pair_addr_from_token_id(token_id: &[u8]) -> (r: Vec<u8>)
    requires
        token_id@.len() >= 4,
        on_char_boundary(token_id@, 4),
    ensures
        r@ == sc_prefix() + spec_ticker(token_id@) + pair_suffix(),
{
    let ticker = get_ticker(token_id);
    let mut out: Vec<u8> = vec![115u8, 99u8, 58u8];
    let ghost head = out@;
    let n = ticker.len();
    for i in 0..n
        invariant
            n == ticker@.len(),
            out@ =~= head + ticker@.subrange(0, i as int),
    {
        out.push(ticker[i]);
    }
    out.push(95u8);
    out.push(112u8);
    out.push(97u8);
    out.push(105u8);
    out.push(114u8);
    proof {
        assert(head =~= sc_prefix());
        assert(ticker@.subrange(0, n as int) =~= ticker@);
        assert(out@ =~= sc_prefix() + ticker@ + pair_suffix());
    }
    out
}

} // verus!
