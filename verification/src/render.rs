//! Human-readable output: aligned tables and key/value listings.
//!
//! A collection renders as a header line and one line per record, tab
//! separated, then aligned into columns; a single record renders as
//! `key:\tvalue` lines.  Timestamps appear as human-relative durations
//! against the given wall-clock time, preferring the modification time and
//! falling back to the creation time; a record with neither simply has no
//! time cell.  Structured output is the codec's affair, not this module's.

use std::io::Write;
use vstd::prelude::*;

use crate::numfmt::int_chars;
use crate::record::{RecordView, ResourceRecord, records_view};
use crate::text::{chars_to_string, push_str_chars};

verus! {

/// The text `tabwriter` produces for tab-separated input: the same lines
/// with each tab column padded to a common width.
pub uninterp spec fn aligned_of(s: Seq<char>) -> Seq<char>;

/// Relies on `tabwriter::TabWriter`: the aligned text depends on the input
/// text alone.
#[verifier::external_body]
fn tab_align(s: &str) -> (r: String)
    ensures
        r@ == aligned_of(s@),
{
    let mut tw = tabwriter::TabWriter::new(Vec::new());
    let _ = tw.write_all(s.as_bytes());
    let _ = tw.flush();
    match tw.into_inner() {
        Ok(b) => match String::from_utf8(b) {
            Ok(t) => t,
            Err(_) => String::new(),
        },
        Err(_) => String::new(),
    }
}

/// The human-relative phrase for a signed duration in seconds: negative
/// durations lie in the past.
pub uninterp spec fn human_time_of(secs: int) -> Seq<char>;

/// Relies on `chrono_humanize::HumanTime`: the phrase depends on the
/// duration alone.  The bound keeps the duration within what
/// `chrono::Duration::seconds` accepts.
#[verifier::external_body]
fn humanize_secs(secs: i64) -> (r: String)
    requires
        -1000000000000 <= secs <= 1000000000000,
    ensures
        r@ == human_time_of(secs as int),
{
    chrono_humanize::HumanTime::from(chrono::Duration::seconds(secs)).to_string()
}

/// `d` clamped into the range the humanizer accepts.
pub open spec fn clamp_spec(d: int) -> int {
    if d < -1000000000000 {
        -1000000000000
    } else if d > 1000000000000 {
        1000000000000
    } else {
        d
    }
}

/// The clamped signed distance from `now` to `t`.
fn clamp_delta(t: i64, now: i64) -> (r: i64)
    ensures
        r == clamp_spec(t - now),
{
    let d: i128 = t as i128 - now as i128;
    if d < -1000000000000i128 {
        -1000000000000i64
    } else if d > 1000000000000i128 {
        1000000000000i64
    } else {
        d as i64
    }
}

/// The last-updated cell: the modification time when present, else the
/// creation time, else nothing.
pub open spec fn updated_cell_spec(r: RecordView, now: int) -> Seq<char> {
    match r.time_modified {
        Option::Some(t) => human_time_of(clamp_spec(t - now)),
        Option::None => match r.time_created {
            Option::Some(t) => human_time_of(clamp_spec(t - now)),
            Option::None => Seq::<char>::empty(),
        },
    }
}

/// One table line for a record.
pub open spec fn table_line_spec(r: RecordView, now: int) -> Seq<char> {
    r.name + seq!['\t'] + r.description + seq!['\t'] + r.state + seq!['\t'] + r.device_path
        + seq!['\t'] + updated_cell_spec(r, now)
}

/// The table's header line.
pub open spec fn table_header() -> Seq<char> {
    "NAME\tDESCRIPTION\tSTATE\tDEVICE PATH\tLAST UPDATED"@
}

/// The whole unaligned table text: the header and one line per record,
/// each line ending in a line break.
pub open spec fn table_text_spec(rs: Seq<RecordView>, now: int) -> Seq<char>
    decreases rs.len(),
{
    if rs.len() == 0 {
        Seq::<char>::empty()
    } else {
        table_line_spec(rs[0], now) + seq!['\n'] + table_text_spec(rs.drop_first(), now)
    }
}

/// Appending a record appends its line.
proof fn lemma_table_text_snoc(rs: Seq<RecordView>, r: RecordView, now: int)
    ensures
        table_text_spec(rs.push(r), now) == table_text_spec(rs, now) + table_line_spec(r, now)
            + seq!['\n'],
    decreases rs.len(),
{
    let e = rs.push(r);
    if rs.len() == 0 {
        assert(e[0] == r);
        assert(e.drop_first() =~= Seq::<RecordView>::empty());
        assert(table_text_spec(rs, now) + table_line_spec(r, now) + seq!['\n'] =~= table_line_spec(
            r,
            now,
        ) + seq!['\n'] + table_text_spec(e.drop_first(), now));
    } else {
        assert(e.drop_first() =~= rs.drop_first().push(r));
        lemma_table_text_snoc(rs.drop_first(), r, now);
        assert(table_line_spec(e[0], now) + seq!['\n'] + (table_text_spec(rs.drop_first(), now)
            + table_line_spec(r, now) + seq!['\n']) =~= (table_line_spec(rs[0], now) + seq!['\n']
            + table_text_spec(rs.drop_first(), now)) + table_line_spec(r, now) + seq!['\n']);
    }
}

/// Appends the last-updated cell of `r` to `out`.
fn push_updated_cell(out: &mut Vec<char>, r: &ResourceRecord, now: i64)
    ensures
        final(out)@ == old(out)@ + updated_cell_spec(r@, now as int),
{
    let t = match r.time_modified {
        Some(t) => t,
        None => match r.time_created {
            Some(t) => t,
            None => {
                return ;
            },
        },
    };
    let h = humanize_secs(clamp_delta(t, now));
    push_str_chars(out, h.as_str());
}

/// Appends the table line of `r` to `out`.
fn push_table_line(out: &mut Vec<char>, r: &ResourceRecord, now: i64)
    ensures
        final(out)@ == old(out)@ + table_line_spec(r@, now as int),
{
    push_str_chars(out, r.name.as_str());
    out.push('\t');
    push_str_chars(out, r.description.as_str());
    out.push('\t');
    push_str_chars(out, r.state.as_str());
    out.push('\t');
    push_str_chars(out, r.device_path.as_str());
    out.push('\t');
    push_updated_cell(out, r, now);
    assert(out@ =~= old(out)@ + table_line_spec(r@, now as int));
}

/// Renders a collection as an aligned table against the given wall-clock
/// time, in seconds relative to the epoch.
pub fn render_table(rs: &Vec<ResourceRecord>, now: i64) -> (r: String)
    ensures
        r@ == aligned_of(
            table_header() + seq!['\n'] + table_text_spec(records_view(rs@), now as int),
        ),
{
    let mut buf: Vec<char> = Vec::new();
    push_str_chars(&mut buf, "NAME\tDESCRIPTION\tSTATE\tDEVICE PATH\tLAST UPDATED");
    buf.push('\n');
    let n = rs.len();
    let mut i: usize = 0;
    while i < n
        invariant
            n == rs@.len(),
            i <= n,
            buf@ == table_header() + seq!['\n'] + table_text_spec(
                records_view(rs@.subrange(0, i as int)),
                now as int,
            ),
        decreases n - i,
    {
        push_table_line(&mut buf, &rs[i], now);
        buf.push('\n');
        proof {
            let pre = records_view(rs@.subrange(0, i as int));
            let post = records_view(rs@.subrange(0, i + 1 as int));
            assert(post =~= pre.push(rs@[i as int]@));
            lemma_table_text_snoc(pre, rs@[i as int]@, now as int);
            assert(buf@ =~= table_header() + seq!['\n'] + table_text_spec(post, now as int));
        }
        i = i + 1;
    }
    assert(rs@.subrange(0, n as int) =~= rs@);
    let text = chars_to_string(&buf);
    tab_align(text.as_str())
}

/// The key/value text of a single record: one line per field, the
/// timestamp lines present only when the record carries them.
pub open spec fn view_text_spec(r: RecordView, now: int) -> Seq<char> {
    "id:\t"@ + r.id + "\nname:\t"@ + r.name + "\ndescription:\t"@ + r.description + "\nstate:\t"@
        + r.state + "\nsize:\t"@ + int_chars(r.size) + "\ndevice path:\t"@ + r.device_path
        + "\nsnapshot:\t"@ + r.snapshot_id + seq!['\n'] + (match r.time_created {
        Option::Some(t) => "created:\t"@ + human_time_of(clamp_spec(t - now)) + seq!['\n'],
        Option::None => Seq::<char>::empty(),
    }) + (match r.time_modified {
        Option::Some(t) => "modified:\t"@ + human_time_of(clamp_spec(t - now)) + seq!['\n'],
        Option::None => Seq::<char>::empty(),
    })
}

/// Renders a single record as an aligned key/value listing against the
/// given wall-clock time, in seconds relative to the epoch.
#[verifier::rlimit(60)]
pub fn render_view(r: &ResourceRecord, now: i64) -> (out: String)
    ensures
        out@ == aligned_of(view_text_spec(r@, now as int)),
{
    let mut buf: Vec<char> = Vec::new();
    push_str_chars(&mut buf, "id:\t");
    push_str_chars(&mut buf, r.id.as_str());
    push_str_chars(&mut buf, "\nname:\t");
    push_str_chars(&mut buf, r.name.as_str());
    push_str_chars(&mut buf, "\ndescription:\t");
    push_str_chars(&mut buf, r.description.as_str());
    push_str_chars(&mut buf, "\nstate:\t");
    push_str_chars(&mut buf, r.state.as_str());
    push_str_chars(&mut buf, "\nsize:\t");
    let digits = crate::numfmt::format_i64(r.size);
    crate::text::push_all(&mut buf, &digits);
    push_str_chars(&mut buf, "\ndevice path:\t");
    push_str_chars(&mut buf, r.device_path.as_str());
    push_str_chars(&mut buf, "\nsnapshot:\t");
    push_str_chars(&mut buf, r.snapshot_id.as_str());
    buf.push('\n');
    match r.time_created {
        Some(t) => {
            push_str_chars(&mut buf, "created:\t");
            let h = humanize_secs(clamp_delta(t, now));
            push_str_chars(&mut buf, h.as_str());
            buf.push('\n');
        },
        None => {},
    }
    match r.time_modified {
        Some(t) => {
            push_str_chars(&mut buf, "modified:\t");
            let h = humanize_secs(clamp_delta(t, now));
            push_str_chars(&mut buf, h.as_str());
            buf.push('\n');
        },
        None => {},
    }
    assert(buf@ =~= view_text_spec(r@, now as int));
    let text = chars_to_string(&buf);
    tab_align(text.as_str())
}

} // verus!
