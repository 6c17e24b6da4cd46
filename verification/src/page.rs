//! Rendering of the introspection page: a plain HTML document with distinct
//! sections for the request line, the headers, the submitted body and the
//! environment, assembled by string concatenation alone. The renderer is
//! total: rendering cannot fail.

use crate::snapshot::DiagnosticSnapshot;
use vstd::prelude::*;
use vstd::string::StringExecFns;

verus! {

/// One `key: value` line per pair, in order.
pub open spec fn pairs_lines(pairs: Seq<(String, String)>) -> Seq<char>
    decreases pairs.len(),
{
    if pairs.len() == 0 {
        Seq::<char>::empty()
    } else {
        pairs[0].0@ + ": "@ + pairs[0].1@ + "\n"@ + pairs_lines(pairs.drop_first())
    }
}

/// The whole introspection page, section by section.
pub open spec fn page_of(
    protocol: Seq<char>,
    method: Seq<char>,
    uri: Seq<char>,
    headers: Seq<(String, String)>,
    body: Seq<char>,
    env: Seq<(String, String)>,
) -> Seq<char> {
    "<html><body><h1>Request</h1><textarea readonly>"@ + "Protocol: "@ + protocol + "\n"@
        + "Method: "@ + method + "\n"@ + "URI: "@ + uri
        + "</textarea><h1>Headers</h1><textarea readonly>"@ + pairs_lines(headers)
        + "</textarea><h1>Data</h1><textarea readonly>"@ + body
        + "</textarea><h1>Env</h1><textarea readonly>"@ + pairs_lines(env)
        + "</textarea></body></html>\n"@
}

/// The introspection page for one snapshot.
pub open spec fn page_of_snapshot(s: DiagnosticSnapshot) -> Seq<char> {
    page_of(s.protocol@, s.method@, s.uri@, s.headers@, s.body@, s.env@)
}

/// Append one `key: value` line per pair to `out`, in order.
fn append_pairs(out: &mut String, pairs: &Vec<(String, String)>)
    ensures
        final(out)@ == old(out)@ + pairs_lines(pairs@),
{
    let mut i: usize = 0;
    proof {
        assert(pairs@.skip(0) =~= pairs@);
        assert(old(out)@ + pairs_lines(pairs@) =~= old(out)@ + pairs_lines(pairs@.skip(0)));
    }
    while i < pairs.len()
        invariant
            i <= pairs@.len(),
            out@ + pairs_lines(pairs@.skip(i as int)) == old(out)@ + pairs_lines(pairs@),
        decreases pairs@.len() - i,
    {
        let ghost before = out@;
        let p = &pairs[i];
        out.append(p.0.as_str());
        out.append(": ");
        out.append(p.1.as_str());
        out.append("\n");
        proof {
            assert(pairs@.skip(i as int).drop_first() =~= pairs@.skip(i as int + 1));
            assert(pairs@.skip(i as int)[0] == pairs@[i as int]);
            assert(out@ =~= before + (pairs@[i as int].0@ + ": "@ + pairs@[i as int].1@
                + "\n"@));
            assert(out@ + pairs_lines(pairs@.skip(i as int + 1)) =~= before + pairs_lines(
                pairs@.skip(i as int),
            ));
        }
        i = i + 1;
    }
    proof {
        assert(pairs@.skip(pairs@.len() as int) =~= Seq::<(String, String)>::empty());
        assert(out@ =~= old(out)@ + pairs_lines(pairs@));
    }
}

/// Render the introspection page for one request snapshot.
pub fn render_page(s: &DiagnosticSnapshot) -> (r: String)
    ensures
        r@ == page_of_snapshot(*s),
{
    let mut out = String::new();
    out.append("<html><body><h1>Request</h1><textarea readonly>");
    out.append("Protocol: ");
    out.append(s.protocol.as_str());
    out.append("\n");
    out.append("Method: ");
    out.append(s.method.as_str());
    out.append("\n");
    out.append("URI: ");
    out.append(s.uri.as_str());
    out.append("</textarea><h1>Headers</h1><textarea readonly>");
    append_pairs(&mut out, &s.headers);
    out.append("</textarea><h1>Data</h1><textarea readonly>");
    out.append(s.body.as_str());
    out.append("</textarea><h1>Env</h1><textarea readonly>");
    append_pairs(&mut out, &s.env);
    out.append("</textarea></body></html>\n");
    proof {
        assert(out@ =~= page_of_snapshot(*s));
    }
    out
}

} // verus!
