//! The execution log: timestamped, severity-labeled, append-only text,
//! rendered one log line per line of each recorded entry.

use vstd::prelude::*;
use vstd::string::*;

use crate::text::{
    lemma_first_nl_is, lemma_lines_no_newline, no_newlines, seq_views, spec_lines, split_lines,
    strip_cr,
};

verus! {

/// Relies on chrono's `Local::now` and `DateTime::to_rfc3339`: the current
/// local time in RFC 3339 form, a single line of date, time and offset.
#[verifier::external_body]
fn now_rfc3339() -> (r: String)
    ensures
        no_newlines(r@),
{
    chrono::Local::now().to_rfc3339()
}

/// The marker between a line's header and its text: `:+:` on the first
/// line of an entry, `:|:` on its continuation lines.
pub open spec fn spec_marker(first: bool) -> Seq<char> {
    if first {
        ":+:"@
    } else {
        ":|:"@
    }
}

/// One rendered log line: timestamp, severity prefix, marker, the line's
/// text, and a terminating newline.
pub open spec fn spec_log_line(
    ts: Seq<char>,
    prefix: Seq<char>,
    first: bool,
    line: Seq<char>,
) -> Seq<char> {
    ts + ": "@ + prefix + spec_marker(first) + line + "\n"@
}

/// The rendered text of one entry's lines, in order.
pub open spec fn spec_render_lines(
    ts: Seq<char>,
    prefix: Seq<char>,
    lines: Seq<Seq<char>>,
    first: bool,
) -> Seq<char>
    decreases lines.len(),
{
    if lines.len() == 0 {
        Seq::empty()
    } else {
        spec_log_line(ts, prefix, first, lines[0]) + spec_render_lines(
            ts,
            prefix,
            lines.drop_first(),
            false,
        )
    }
}

/// The whole rendered entry for a text: one log line per line of the text.
pub open spec fn spec_entry(ts: Seq<char>, prefix: Seq<char>, text: Seq<char>) -> Seq<char> {
    spec_render_lines(ts, prefix, spec_lines(text), true)
}

/// The accumulated log of one pipeline run. Mutated append-only; its view
/// is the flat rendered text.
pub struct SimpleLog {
    content: String,
}

impl View for SimpleLog {
    type V = Seq<char>;

    closed spec fn view(&self) -> Seq<char> {
        self.content@
    }
}

impl Default for SimpleLog {
    fn default() -> (r: Self)
        ensures
            r@ == Seq::<char>::empty(),
    {
        SimpleLog { content: String::new() }
    }
}

impl SimpleLog {
    /// The rendered text accumulated so far.
    pub fn content(&self) -> (r: &str)
        ensures
            r@ == self@,
    {
        self.content.as_str()
    }

    /// Appends one entry under the given timestamp: every line of `s`
    /// becomes one rendered log line.
    pub fn add_entry_with_timestamp(&mut self, timestamp: &str, prefix: &str, s: &str)
        ensures
            final(self)@ == old(self)@ + spec_entry(timestamp@, prefix@, s@),
    {
        let lines = split_lines(s);
        let ghost lv = spec_lines(s@);
        proof {
            assert(seq_views(lines@) =~= lv);
            assert(lv.skip(0) =~= lv);
        }
        let mut idx: usize = 0;
        while idx < lines.len()
            invariant
                seq_views(lines@) == lv,
                lv == spec_lines(s@),
                0 <= idx <= lines@.len(),
                old(self)@ + spec_entry(timestamp@, prefix@, s@) =~= self@ + spec_render_lines(
                    timestamp@,
                    prefix@,
                    lv.skip(idx as int),
                    idx == 0,
                ),
            decreases lines@.len() - idx,
        {
            let first = idx == 0;
            let ghost pre = self@;
            self.content.append(timestamp);
            self.content.append(": ");
            self.content.append(prefix);
            if first {
                self.content.append(":+:");
            } else {
                self.content.append(":|:");
            }
            self.content.append(lines[idx].as_str());
            self.content.append("\n");
            proof {
                let tail = lv.skip(idx as int);
                assert(seq_views(lines@)[idx as int] == lines@[idx as int]@);
                assert(tail[0] == lv[idx as int]);
                assert(tail.drop_first() =~= lv.skip(idx as int + 1));
                assert(self@ =~= pre + spec_log_line(timestamp@, prefix@, first, lv[idx as int]));
                assert(pre + spec_render_lines(timestamp@, prefix@, tail, first) =~= self@
                    + spec_render_lines(timestamp@, prefix@, lv.skip(idx as int + 1), false));
            }
            idx += 1;
        }
        proof {
            assert(lv.skip(lines@.len() as int) =~= Seq::<Seq<char>>::empty());
            assert(self@ + Seq::<char>::empty() =~= self@);
        }
    }

    /// Appends one entry stamped with the current time.
    fn add_entry(&mut self, prefix: &str, s: &str)
        ensures
            exists|ts: Seq<char>|
                no_newlines(ts) && final(self)@ == old(self)@ + spec_entry(ts, prefix@, s@),
    {
        let timestamp = now_rfc3339();
        self.add_entry_with_timestamp(timestamp.as_str(), prefix, s);
        proof {
            assert(no_newlines(timestamp@) && self@ == old(self)@ + spec_entry(
                timestamp@,
                prefix@,
                s@,
            ));
        }
    }

    /// Records an informational entry.
    pub fn info(&mut self, s: &str)
        ensures
            exists|ts: Seq<char>|
                no_newlines(ts) && final(self)@ == old(self)@ + spec_entry(ts, "INFO"@, s@),
    {
        self.add_entry("INFO", s);
    }

    /// Records an error entry.
    pub fn error(&mut self, s: &str)
        ensures
            exists|ts: Seq<char>|
                no_newlines(ts) && final(self)@ == old(self)@ + spec_entry(ts, "ERROR"@, s@),
    {
        self.add_entry("ERROR", s);
    }
}

/// A rendered entry splits back into exactly one physical line per line of
/// the recorded text, and each physical line carries that text line
/// verbatim behind its header (up to the carriage-return convention of
/// line splitting).
pub proof fn lemma_render_lines_structure(
    ts: Seq<char>,
    prefix: Seq<char>,
    lines: Seq<Seq<char>>,
    first: bool,
)
    requires
        no_newlines(ts),
        no_newlines(prefix),
        forall|i: int| 0 <= i < lines.len() ==> no_newlines(#[trigger] lines[i]),
    ensures
        spec_lines(spec_render_lines(ts, prefix, lines, first)).len() == lines.len(),
        forall|i: int|
            0 <= i < lines.len() ==> spec_lines(spec_render_lines(ts, prefix, lines, first))[i]
                == strip_cr(ts + ": "@ + prefix + spec_marker(first && i == 0) + lines[i]),
    decreases lines.len(),
{
    reveal_strlit(": ");
    reveal_strlit(":+:");
    reveal_strlit(":|:");
    reveal_strlit("\n");
    if lines.len() == 0 {
    } else {
        let body = ts + ": "@ + prefix + spec_marker(first) + lines[0];
        let rest = spec_render_lines(ts, prefix, lines.drop_first(), false);
        let rendered = spec_render_lines(ts, prefix, lines, first);
        assert(rendered =~= body + "\n"@ + rest);
        assert forall|j: int| 0 <= j < body.len() implies rendered[j] != '\n' by {
            assert(rendered[j] == body[j]);
        }
        assert(rendered[body.len() as int] == '\n');
        lemma_first_nl_is(rendered, body.len() as int);
        lemma_render_lines_structure(ts, prefix, lines.drop_first(), false);
        assert(rendered.take(body.len() as int) =~= body);
        assert(rendered.skip(body.len() as int + 1) =~= rest);
        assert forall|i: int| 0 <= i < lines.len() implies spec_lines(rendered)[i] == strip_cr(
            ts + ": "@ + prefix + spec_marker(first && i == 0) + lines[i],
        ) by {
            if i == 0 {
                assert(spec_lines(rendered)[0] == strip_cr(body));
            } else {
                assert(spec_lines(rendered)[i] == spec_lines(rest)[i - 1]);
                assert(lines.drop_first()[i - 1] == lines[i]);
            }
        }
    }
}

/// Recording an entry adds exactly as many rendered lines as the text has:
/// the log loses no line and invents none.
pub proof fn lemma_entry_line_count(ts: Seq<char>, prefix: Seq<char>, text: Seq<char>)
    requires
        no_newlines(ts),
        no_newlines(prefix),
    ensures
        spec_lines(spec_entry(ts, prefix, text)).len() == spec_lines(text).len(),
{
    lemma_lines_no_newline(text);
    lemma_render_lines_structure(ts, prefix, spec_lines(text), true);
}

} // verus!
