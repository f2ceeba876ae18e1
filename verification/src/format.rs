//! The two per-destination renderings of one event: the ANSI-colored,
//! multi-line console block, and the uncolored single-header file record.
//! Both embed the very same span-chain rendering.

use vstd::prelude::*;
use crate::color::{color_for, color_for_spec, muted_color, paint, painted, ColorCode};
use crate::event::{fields_spec, Event, EventV};
use crate::num::{dec_spec, dec_string, push_dec};
use crate::severity::label_spec;
use crate::span::render_spans_spec;
use crate::time::{display_stamp, display_stamp_spec};

verus! {

/// The first line of a console block: the colored severity label, then in
/// muted grey the timestamp, the thread identifier, and the target with its
/// source line, separated by single spaces.
pub open spec fn console_header_spec(e: EventV) -> Seq<char> {
    painted(color_for_spec(e.severity), label_spec(e.severity)) + seq![' '] + painted(
        ColorCode::Grey,
        display_stamp_spec(e.timestamp),
    ) + seq![' '] + painted(ColorCode::Grey, dec_spec(e.thread as nat)) + seq![' '] + painted(
        ColorCode::Grey,
        e.target + seq!['('] + dec_spec(e.line as nat) + seq![')'],
    )
}

/// A whole console block: header line, span-chain line, message-and-fields
/// line, and a final blank line.
pub open spec fn console_format_spec(e: EventV) -> Seq<char> {
    console_header_spec(e) + seq!['\n'] + render_spans_spec(e.spans) + seq!['\n'] + fields_spec(
        e.message,
        e.fields,
    ) + seq!['\n'] + seq!['\n']
}

/// The header line of a file record: the bracketed severity label, thread
/// identifier, timestamp, and the target with its source line.
pub open spec fn file_header_spec(e: EventV) -> Seq<char> {
    seq!['['] + label_spec(e.severity) + seq![']'] + seq![' '] + dec_spec(e.thread as nat)
        + seq![' '] + display_stamp_spec(e.timestamp) + seq![' '] + e.target + seq!['('] + dec_spec(
        e.line as nat,
    ) + seq![')']
}

/// A whole file record: the header line, then the span chain and the
/// message-and-fields block on one line, closed by a single terminator and
/// free of color escapes.
pub open spec fn file_format_spec(e: EventV) -> Seq<char> {
    file_header_spec(e) + seq!['\n'] + render_spans_spec(e.spans) + seq![' '] + fields_spec(
        e.message,
        e.fields,
    ) + seq!['\n']
}

/// Renders the console block of `e`.
pub fn console_format(e: &Event) -> (r: String)
    requires
        e@.timestamp.wf(),
    ensures
        r@ == console_format_spec(e@),
{
    proof {
        reveal_strlit(" ");
        reveal_strlit("(");
        reveal_strlit(")");
        reveal_strlit("\n");
        assert(" "@ =~= seq![' ']);
        assert("("@ =~= seq!['(']);
        assert(")"@ =~= seq![')']);
        assert("\n"@ =~= seq!['\n']);
    }
    let sev = paint(color_for(e.severity()), e.severity().label());
    let stamp = display_stamp(&e.timestamp());
    let stamp = paint(muted_color(), stamp.as_str());
    let tid = dec_string(e.thread());
    let tid = paint(muted_color(), tid.as_str());
    let mut loc = e.target().clone();
    loc.append("(");
    push_dec(&mut loc, e.line() as u64);
    loc.append(")");
    let loc = paint(muted_color(), loc.as_str());
    let chain = e.spans().render();
    let body = e.render_fields();
    let mut out = sev;
    out.append(" ");
    out.append(stamp.as_str());
    out.append(" ");
    out.append(tid.as_str());
    out.append(" ");
    out.append(loc.as_str());
    out.append("\n");
    out.append(chain.as_str());
    out.append("\n");
    out.append(body.as_str());
    out.append("\n");
    out.append("\n");
    proof {
        assert(out@ =~= console_format_spec(e@));
    }
    out
}

/// Renders the file record of `e`.
pub fn file_format(e: &Event) -> (r: String)
    requires
        e@.timestamp.wf(),
    ensures
        r@ == file_format_spec(e@),
{
    proof {
        reveal_strlit(" ");
        reveal_strlit("[");
        reveal_strlit("]");
        reveal_strlit("(");
        reveal_strlit(")");
        reveal_strlit("\n");
        assert(" "@ =~= seq![' ']);
        assert("["@ =~= seq!['[']);
        assert("]"@ =~= seq![']']);
        assert("("@ =~= seq!['(']);
        assert(")"@ =~= seq![')']);
        assert("\n"@ =~= seq!['\n']);
    }
    let stamp = display_stamp(&e.timestamp());
    let chain = e.spans().render();
    let body = e.render_fields();
    let mut out = String::new();
    out.append("[");
    out.append(e.severity().label());
    out.append("]");
    out.append(" ");
    push_dec(&mut out, e.thread());
    out.append(" ");
    out.append(stamp.as_str());
    out.append(" ");
    out.append(e.target().as_str());
    out.append("(");
    push_dec(&mut out, e.line() as u64);
    out.append(")");
    out.append("\n");
    out.append(chain.as_str());
    out.append(" ");
    out.append(body.as_str());
    out.append("\n");
    proof {
        assert(out@ =~= file_format_spec(e@));
    }
    out
}

/// The shared-renderer law: the console block and the file record of one
/// event carry character-identical span-chain substrings, each sitting right
/// after its header line.
pub proof fn lemma_shared_span_chain(e: EventV)
    ensures
        ({
            let chain = render_spans_spec(e.spans);
            let co = console_header_spec(e).len() as int + 1;
            let fo = file_header_spec(e).len() as int + 1;
            &&& console_format_spec(e).subrange(co, co + chain.len() as int) == chain
            &&& file_format_spec(e).subrange(fo, fo + chain.len() as int) == chain
        }),
{
    let chain = render_spans_spec(e.spans);
    let co = console_header_spec(e).len() as int + 1;
    let fo = file_header_spec(e).len() as int + 1;
    assert(console_format_spec(e).subrange(co, co + chain.len() as int) =~= chain);
    assert(file_format_spec(e).subrange(fo, fo + chain.len() as int) =~= chain);
}

} // verus!
