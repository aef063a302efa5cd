//! The leaderboard service's models and run submission.

pub mod ddcl_submit;
pub mod models;

use self::ddcl_submit::{ascii_to_string, base64_encode, base64_standard, is_base64_byte};
use self::models::OperatingSystem;
use vstd::prelude::*;
use vstd::string::*;

verus! {

/// The service's name for the platform a target name stands for: `windows`
/// is Windows, anything else Linux.
pub fn get_os(target_os: &str) -> (r: OperatingSystem)
    ensures
        r == (if target_os@ == "windows"@ {
            OperatingSystem::Windows
        } else {
            OperatingSystem::Linux
        }),
{
    let w = "windows";
    let b = target_os.as_bytes();
    let wb = w.as_bytes();
    proof {
        reveal_strlit("windows");
    }
    if b.len() != wb.len() {
        proof {
            if target_os@ == "windows"@ {
                assert(target_os.spec_bytes() == w.spec_bytes());
            }
        }
        return OperatingSystem::Linux;
    }
    let mut i: usize = 0;
    while i < b.len()
        invariant
            w@ == "windows"@,
            b@ == target_os.spec_bytes(),
            wb@ == w.spec_bytes(),
            b@.len() == wb@.len(),
            i <= b@.len(),
            forall|j: int| 0 <= j < i ==> b@[j] == wb@[j],
        decreases b@.len() - i,
    {
        if b[i] != wb[i] {
            proof {
                if target_os@ == "windows"@ {
                    assert(target_os.spec_bytes() == w.spec_bytes());
                    assert(b@[i as int] == wb@[i as int]);
                }
            }
            return OperatingSystem::Linux;
        }
        i = i + 1;
    }
    assert(b@ =~= wb@);
    proof {
        lemma_bytes_eq_chars(target_os@, w@);
    }
    OperatingSystem::Windows
}

proof fn lemma_bytes_eq_chars(a: Seq<char>, b: Seq<char>)
    requires
        vstd::utf8::encode_utf8(a) == vstd::utf8::encode_utf8(b),
    ensures
        a == b,
{
    vstd::utf8::encode_utf8_decode_utf8(a);
    vstd::utf8::encode_utf8_decode_utf8(b);
}

/// `=`, `/` and `+` written as `%3D`, `%2F` and `%2B`.
pub open spec fn percent_escaped(b: Seq<u8>) -> Seq<u8>
    decreases b.len(),
{
    if b.len() == 0 {
        Seq::empty()
    } else {
        percent_escaped(b.drop_last()) + if b.last() == 61 {
            seq![37u8, 51, 68]
        } else if b.last() == 47 {
            seq![37u8, 50, 70]
        } else if b.last() == 43 {
            seq![37u8, 50, 66]
        } else {
            seq![b.last()]
        }
    }
}

proof fn lemma_percent_escaped_ascii(b: Seq<u8>)
    requires
        forall|i: int| 0 <= i < b.len() ==> b[i] <= 0x7f,
    ensures
        forall|i: int| 0 <= i < percent_escaped(b).len() ==> #[trigger] percent_escaped(b)[i] <= 0x7f,
    decreases b.len(),
{
    if b.len() > 0 {
        let d = b.drop_last();
        assert forall|i: int| 0 <= i < d.len() implies d[i] <= 0x7f by {
            assert(d[i] == b[i]);
        }
        lemma_percent_escaped_ascii(d);
        let p = percent_escaped(d);
        assert forall|i: int| 0 <= i < percent_escaped(b).len() implies #[trigger] percent_escaped(b)[i] <= 0x7f by {
            if i < p.len() {
                assert(percent_escaped(b)[i] == p[i]);
            }
        }
    }
}

/// The value of the `hash` query parameter for a spawnset digest: its
/// base64 text with `=`, `/` and `+` percent-encoded.
pub fn spawnset_hash_query(hash: &[u8]) -> (r: String)
    ensures
        r@ == vstd::utf8::decode_utf8(percent_escaped(base64_standard(hash@))),
{
    let b = base64_encode(hash);
    let mut out: Vec<u8> = Vec::new();
    let mut i: usize = 0;
    while i < b.len()
        invariant
            i <= b@.len(),
            out@ == percent_escaped(b@.subrange(0, i as int)),
        decreases b@.len() - i,
    {
        assert(b@.subrange(0, i + 1).drop_last() =~= b@.subrange(0, i as int));
        let c = b[i];
        if c == 61 {
            out.push(37);
            out.push(51);
            out.push(68);
        } else if c == 47 {
            out.push(37);
            out.push(50);
            out.push(70);
        } else if c == 43 {
            out.push(37);
            out.push(50);
            out.push(66);
        } else {
            out.push(c);
        }
        assert(out@ =~= percent_escaped(b@.subrange(0, i + 1)));
        i = i + 1;
    }
    assert(b@.subrange(0, b@.len() as int) =~= b@);
    assert forall|k: int| 0 <= k < b@.len() implies b@[k] <= 0x7f by {
        assert(is_base64_byte(b@[k]));
    }
    proof {
        lemma_percent_escaped_ascii(b@);
    }
    ascii_to_string(out)
}

} // verus!
