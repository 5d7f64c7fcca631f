//! Armoring of a bare base64 key body as a PEM `PUBLIC KEY` block.

use vstd::prelude::*;
use vstd::string::StrSliceExecFns;
use vstd::string::StringExecFns;
use vstd::string::StringSliceAdditionalSpecFns;

verus! {

/// Number of body characters on each full line of the armored text.
pub const PEM_LINE_LEN: usize = 64;

/// The body cut into lines of `PEM_LINE_LEN` characters, each line followed
/// by a newline; only the last line may be shorter, and an empty body gives
/// no line at all.
pub open spec fn pem_body_lines(body: Seq<char>) -> Seq<char>
    decreases body.len(),
{
    if body.len() == 0 {
        Seq::empty()
    } else if body.len() <= PEM_LINE_LEN {
        body.push('\n')
    } else {
        body.subrange(0, PEM_LINE_LEN as int).push('\n') + pem_body_lines(
            body.subrange(PEM_LINE_LEN as int, body.len() as int),
        )
    }
}

/// The armored text: the `BEGIN` line, the body lines, the `END` line.
pub open spec fn pem_text(body: Seq<char>) -> Seq<char> {
    "-----BEGIN PUBLIC KEY-----\n"@ + pem_body_lines(body) + "-----END PUBLIC KEY-----\n"@
}

/// Wraps a bare key body in PEM armor.
///
/// The body is expected to be base64 text and therefore ASCII; it is split
/// by position only and not otherwise inspected.
pub fn format_pem(input: &str) -> (pem: String)
    requires
        input.is_ascii(),
    ensures
        pem@ == pem_text(input@),
{
    let mut result = String::new();
    result.append("-----BEGIN PUBLIC KEY-----\n");
    let n: usize = input.as_bytes().len();
    proof {
        vstd::string::is_ascii_spec_bytes(input);
        assert(input@.subrange(0, n as int) =~= input@);
        assert(result@ =~= "-----BEGIN PUBLIC KEY-----\n"@);
    }
    let mut start: usize = 0;
    while start < n
        invariant
            start <= n,
            n == input@.len(),
            input.is_ascii(),
            result@ + pem_body_lines(input@.subrange(start as int, n as int))
                == "-----BEGIN PUBLIC KEY-----\n"@ + pem_body_lines(input@),
        decreases n - start,
    {
        let end: usize = if n - start > PEM_LINE_LEN {
            start + PEM_LINE_LEN
        } else {
            n
        };
        let ghost rest = input@.subrange(start as int, n as int);
        let ghost before = result@;
        let chunk = input.substring_ascii(start, end);
        result.append(chunk);
        result.append("\n");
        proof {
            reveal_strlit("\n");
            assert("\n"@ =~= seq!['\n']);
            assert(chunk@ =~= rest.subrange(0, end - start));
            assert(input@.subrange(end as int, n as int) =~= rest.subrange(
                end - start,
                rest.len() as int,
            ));
            if end == n {
                assert(rest.subrange(0, end - start) =~= rest);
                assert(pem_body_lines(input@.subrange(end as int, n as int)) =~= Seq::<
                    char,
                >::empty());
            }
            assert(result@ =~= before + chunk@.push('\n'));
            assert(result@ + pem_body_lines(input@.subrange(end as int, n as int)) =~= before
                + pem_body_lines(rest));
        }
        start = end;
    }
    assert(input@.subrange(n as int, n as int) =~= Seq::<char>::empty());
    assert(result@ =~= "-----BEGIN PUBLIC KEY-----\n"@ + pem_body_lines(input@));
    result.append("-----END PUBLIC KEY-----\n");
    result
}

} // verus!
