//! Structured-text output and its inverse.
//!
//! With the `json` flag set, a command prints the fetched record or records
//! as structured text instead of a table: a fixed object shape per record,
//! fields in a fixed order, string fields quoted with `"` and `\` escaped,
//! numbers in plain decimal, absent timestamps as `null`, and a collection
//! as a bracketed, comma-separated list.  The decoder reads that shape back.
//! `lemma_decode_encode` states the round trip: decoding an encoded
//! collection yields the same records.

use vstd::prelude::*;

use crate::numfmt::{
    dec_digits, digit_val_exec, digits_value, int_chars, is_digit, is_digit_exec,
    lemma_dec_digits_len, lemma_dec_digits_shape, lemma_digits_value_of_dec, lemma_pow10_vals,
    pow10,
};
use crate::record::{RecordView, ResourceRecord, records_view};
use crate::text::{chars_to_string, push_all, push_str_chars, starts_with_spec};

verus! {

/// How one character appears inside a quoted string.
pub open spec fn esc_char(c: char) -> Seq<char> {
    if c == '"' {
        seq!['\\', '"']
    } else if c == '\\' {
        seq!['\\', '\\']
    } else {
        seq![c]
    }
}

/// The body of a quoted string: every character escaped as needed.
pub open spec fn escape(s: Seq<char>) -> Seq<char>
    decreases s.len(),
{
    if s.len() == 0 {
        s
    } else {
        esc_char(s[0]) + escape(s.drop_first())
    }
}

/// A quoted string.
pub open spec fn jstr(s: Seq<char>) -> Seq<char> {
    seq!['"'] + escape(s) + seq!['"']
}

/// An optional timestamp: `null` when absent, a numeral when present.
pub open spec fn opt_chars(v: Option<int>) -> Seq<char> {
    match v {
        Option::None => "null"@,
        Option::Some(t) => int_chars(t),
    }
}

/// One record, as an object with its fields in fixed order.
pub open spec fn record_json(r: RecordView) -> Seq<char> {
    "{\"id\":"@ + jstr(r.id) + ",\"name\":"@ + jstr(r.name) + ",\"description\":"@ + jstr(
        r.description,
    ) + ",\"state\":"@ + jstr(r.state) + ",\"device_path\":"@ + jstr(r.device_path) + ",\"size\":"@
        + int_chars(r.size) + ",\"snapshot_id\":"@ + jstr(r.snapshot_id) + ",\"time_created\":"@
        + opt_chars(r.time_created) + ",\"time_modified\":"@ + opt_chars(r.time_modified) + "}"@
}

/// The comma-separated objects between the collection's brackets.
pub open spec fn records_body(rs: Seq<RecordView>) -> Seq<char>
    decreases rs.len(),
{
    if rs.len() == 0 {
        Seq::<char>::empty()
    } else if rs.len() == 1 {
        record_json(rs[0])
    } else {
        record_json(rs[0]) + seq![','] + records_body(rs.drop_first())
    }
}

/// A collection of records, bracketed.
pub open spec fn records_json(rs: Seq<RecordView>) -> Seq<char> {
    seq!['['] + records_body(rs) + seq![']']
}

/// Escaping distributes over concatenation.
pub proof fn lemma_escape_app(a: Seq<char>, b: Seq<char>)
    ensures
        escape(a + b) == escape(a) + escape(b),
    decreases a.len(),
{
    if a.len() == 0 {
        assert(a + b =~= b);
        assert(escape(a) + escape(b) =~= escape(b));
    } else {
        assert((a + b).drop_first() =~= a.drop_first() + b);
        lemma_escape_app(a.drop_first(), b);
        assert(esc_char((a + b)[0]) + (escape(a.drop_first()) + escape(b)) =~= (esc_char(a[0])
            + escape(a.drop_first())) + escape(b));
    }
}

/// Appending a record extends the collection body by a separator and the
/// record's object.
#[verifier::rlimit(60)]
proof fn lemma_records_body_snoc(rs: Seq<RecordView>, r: RecordView)
    ensures
        records_body(rs.push(r)) == if rs.len() == 0 {
            record_json(r)
        } else {
            records_body(rs) + seq![','] + records_body(seq![r])
        },
    decreases rs.len(),
{
    let e = rs.push(r);
    if rs.len() == 0 {
        assert(e.len() == 1);
        assert(e[0] == r);
    } else {
        assert(e.drop_first() =~= rs.drop_first().push(r));
        lemma_records_body_snoc(rs.drop_first(), r);
        if rs.len() == 1 {
            assert(records_body(rs) == record_json(rs[0]));
            assert(records_body(e) == record_json(rs[0]) + seq![','] + record_json(r));
        } else {
            assert(record_json(e[0]) + seq![','] + (records_body(rs.drop_first()) + seq![',']
                + records_body(seq![r])) =~= (record_json(rs[0]) + seq![','] + records_body(
                rs.drop_first(),
            )) + seq![','] + records_body(seq![r]));
        }
    }
}

/// Appends the quoted, escaped form of `s` to `out`.
fn push_jstr(out: &mut Vec<char>, s: &str)
    ensures
        final(out)@ == old(out)@ + jstr(s@),
{
    out.push('"');
    let n = s.unicode_len();
    let mut i: usize = 0;
    while i < n
        invariant
            n == s@.len(),
            i <= n,
            out@ == old(out)@ + seq!['"'] + escape(s@.subrange(0, i as int)),
        decreases n - i,
    {
        let c = s.get_char(i);
        if c == '"' {
            out.push('\\');
            out.push('"');
        } else if c == '\\' {
            out.push('\\');
            out.push('\\');
        } else {
            out.push(c);
        }
        proof {
            let p = s@.subrange(0, i as int);
            assert(s@.subrange(0, i + 1 as int) =~= p + seq![s@[i as int]]);
            lemma_escape_app(p, seq![s@[i as int]]);
            assert(escape(seq![s@[i as int]]) == esc_char(s@[i as int]) + escape(
                seq![s@[i as int]].drop_first(),
            ));
            assert(seq![s@[i as int]].drop_first() =~= Seq::<char>::empty());
            assert(escape(seq![s@[i as int]]) =~= esc_char(s@[i as int]));
            assert(out@ =~= old(out)@ + seq!['"'] + escape(s@.subrange(0, i + 1 as int)));
        }
        i = i + 1;
    }
    assert(s@.subrange(0, n as int) =~= s@);
    out.push('"');
    assert(out@ =~= old(out)@ + jstr(s@));
}

/// Appends the numeral of `v` to `out`.
fn push_int(out: &mut Vec<char>, v: i64)
    ensures
        final(out)@ == old(out)@ + int_chars(v as int),
{
    let digits = crate::numfmt::format_i64(v);
    push_all(out, &digits);
}

/// Appends `null` or a numeral to `out`.
fn push_opt(out: &mut Vec<char>, v: &Option<i64>)
    ensures
        final(out)@ == old(out)@ + opt_chars(
            match v {
                Option::Some(t) => Option::Some(*t as int),
                Option::None => Option::None,
            },
        ),
{
    match v {
        Option::Some(t) => push_int(out, *t),
        Option::None => push_str_chars(out, "null"),
    }
}

/// Appends the object form of `r` to `out`.
#[verifier::rlimit(60)]
fn push_record(out: &mut Vec<char>, r: &ResourceRecord)
    ensures
        final(out)@ == old(out)@ + record_json(r@),
{
    push_str_chars(out, "{\"id\":");
    push_jstr(out, r.id.as_str());
    push_str_chars(out, ",\"name\":");
    push_jstr(out, r.name.as_str());
    push_str_chars(out, ",\"description\":");
    push_jstr(out, r.description.as_str());
    push_str_chars(out, ",\"state\":");
    push_jstr(out, r.state.as_str());
    push_str_chars(out, ",\"device_path\":");
    push_jstr(out, r.device_path.as_str());
    push_str_chars(out, ",\"size\":");
    push_int(out, r.size);
    push_str_chars(out, ",\"snapshot_id\":");
    push_jstr(out, r.snapshot_id.as_str());
    push_str_chars(out, ",\"time_created\":");
    push_opt(out, &r.time_created);
    push_str_chars(out, ",\"time_modified\":");
    push_opt(out, &r.time_modified);
    push_str_chars(out, "}");
    assert(out@ =~= old(out)@ + record_json(r@));
}

/// The structured text for one record.
pub fn encode_record(r: &ResourceRecord) -> (out: String)
    ensures
        out@ == record_json(r@),
{
    let mut buf: Vec<char> = Vec::new();
    push_record(&mut buf, r);
    chars_to_string(&buf)
}

/// The structured text for a collection of records, in order.
pub fn encode_records(rs: &Vec<ResourceRecord>) -> (out: String)
    ensures
        out@ == records_json(records_view(rs@)),
{
    let mut buf: Vec<char> = Vec::new();
    buf.push('[');
    let n = rs.len();
    let mut i: usize = 0;
    while i < n
        invariant
            n == rs@.len(),
            i <= n,
            buf@ == seq!['['] + records_body(records_view(rs@.subrange(0, i as int))),
        decreases n - i,
    {
        if i > 0 {
            buf.push(',');
        }
        push_record(&mut buf, &rs[i]);
        proof {
            let pre = records_view(rs@.subrange(0, i as int));
            let post = records_view(rs@.subrange(0, i + 1 as int));
            assert(post =~= pre.push(rs@[i as int]@));
            lemma_records_body_snoc(pre, rs@[i as int]@);
            if i == 0 {
                assert(buf@ =~= seq!['['] + records_body(post));
            } else {
                assert(records_body(seq![rs@[i as int]@]) == record_json(rs@[i as int]@));
                assert(buf@ =~= seq!['['] + records_body(post));
            }
        }
        i = i + 1;
    }
    buf.push(']');
    proof {
        assert(records_view(rs@.subrange(0, n as int)) =~= records_view(rs@));
        assert(buf@ =~= seq!['['] + records_body(records_view(rs@)) + seq![']']);
    }
    chars_to_string(&buf)
}

/// Whether the integer `v` is the value of some 64-bit signed machine
/// integer.
pub open spec fn in_i64(v: int) -> bool {
    -0x8000000000000000 <= v < 0x8000000000000000
}

/// Whether an optional timestamp is absent or machine-representable.
pub open spec fn opt_in_i64(o: Option<int>) -> bool {
    match o {
        Option::Some(t) => in_i64(t),
        Option::None => true,
    }
}

/// Whether every numeric field of the record is machine-representable.
/// The view of every `ResourceRecord` is.
pub open spec fn record_repr_ok(r: RecordView) -> bool {
    in_i64(r.size) && opt_in_i64(r.time_created) && opt_in_i64(r.time_modified)
}

/// `record_repr_ok`, over a whole collection.
pub open spec fn reprs_ok(rs: Seq<RecordView>) -> bool {
    forall|i: int| 0 <= i < rs.len() ==> record_repr_ok(#[trigger] rs[i])
}

/// The view of a vector of records always has machine-representable
/// numeric fields.
pub proof fn lemma_records_view_reprs_ok(rs: Seq<ResourceRecord>)
    ensures
        reprs_ok(records_view(rs)),
{
}

/// Consumes the exact text `lit` from the front of `s`.
pub open spec fn parse_lit(s: Seq<char>, lit: Seq<char>) -> Option<Seq<char>> {
    if s.len() >= lit.len() && s.subrange(0, lit.len() as int) == lit {
        Option::Some(s.skip(lit.len() as int))
    } else {
        Option::None
    }
}

/// Reads a quoted string's body up to and including its closing quote,
/// undoing the escapes.
pub open spec fn scan_jstr(s: Seq<char>) -> Option<(Seq<char>, Seq<char>)>
    decreases s.len(),
{
    if s.len() == 0 {
        Option::None
    } else if s[0] == '"' {
        Option::Some((Seq::<char>::empty(), s.drop_first()))
    } else if s[0] == '\\' {
        if s.len() >= 2 && (s[1] == '"' || s[1] == '\\') {
            match scan_jstr(s.skip(2)) {
                Option::Some((v, rest)) => Option::Some((seq![s[1]] + v, rest)),
                Option::None => Option::None,
            }
        } else {
            Option::None
        }
    } else {
        match scan_jstr(s.drop_first()) {
            Option::Some((v, rest)) => Option::Some((seq![s[0]] + v, rest)),
            Option::None => Option::None,
        }
    }
}

/// Reads a quoted string, opening quote included.
pub open spec fn parse_jstr(s: Seq<char>) -> Option<(Seq<char>, Seq<char>)> {
    if s.len() > 0 && s[0] == '"' {
        scan_jstr(s.drop_first())
    } else {
        Option::None
    }
}

/// The length of the run of digit characters at the front of `s`.
pub open spec fn digit_run(s: Seq<char>) -> nat
    decreases s.len(),
{
    if s.len() > 0 && is_digit(s[0]) {
        (1 + digit_run(s.drop_first())) as nat
    } else {
        0
    }
}

/// Reads a non-empty digit run as a natural number.
pub open spec fn parse_nat(s: Seq<char>) -> Option<(nat, Seq<char>)> {
    let k = digit_run(s);
    if k == 0 || k > 19 {
        Option::None
    } else {
        Option::Some((digits_value(s.take(k as int)), s.skip(k as int)))
    }
}

/// Reads a numeral, with an optional leading minus sign.
pub open spec fn parse_int(s: Seq<char>) -> Option<(int, Seq<char>)> {
    if s.len() > 0 && s[0] == '-' {
        match parse_nat(s.drop_first()) {
            Option::Some((n, rest)) => if n <= 0x8000000000000000 {
                Option::Some((-(n as int), rest))
            } else {
                Option::None
            },
            Option::None => Option::None,
        }
    } else {
        match parse_nat(s) {
            Option::Some((n, rest)) => if n < 0x8000000000000000 {
                Option::Some((n as int, rest))
            } else {
                Option::None
            },
            Option::None => Option::None,
        }
    }
}

/// Reads `null` or a numeral.
pub open spec fn parse_opt(s: Seq<char>) -> Option<(Option<int>, Seq<char>)> {
    if starts_with_spec(s, "null"@) {
        Option::Some((Option::None, s.skip(4)))
    } else {
        match parse_int(s) {
            Option::Some((v, rest)) => Option::Some((Option::Some(v), rest)),
            Option::None => Option::None,
        }
    }
}

/// Reads one record object, fields in the fixed order.
#[verifier::opaque]
pub open spec fn parse_record(s: Seq<char>) -> Option<(RecordView, Seq<char>)> {
    match parse_lit(s, "{\"id\":"@) {
        Option::None => Option::None,
        Option::Some(s1) => match parse_jstr(s1) {
            Option::None => Option::None,
            Option::Some((id, s2)) => match parse_lit(s2, ",\"name\":"@) {
                Option::None => Option::None,
                Option::Some(s3) => match parse_jstr(s3) {
                    Option::None => Option::None,
                    Option::Some((name, s4)) => match parse_lit(s4, ",\"description\":"@) {
                        Option::None => Option::None,
                        Option::Some(s5) => match parse_jstr(s5) {
                            Option::None => Option::None,
                            Option::Some((description, s6)) => match parse_lit(
                                s6,
                                ",\"state\":"@,
                            ) {
                                Option::None => Option::None,
                                Option::Some(s7) => match parse_jstr(s7) {
                                    Option::None => Option::None,
                                    Option::Some((state, s8)) => match parse_lit(
                                        s8,
                                        ",\"device_path\":"@,
                                    ) {
                                        Option::None => Option::None,
                                        Option::Some(s9) => match parse_jstr(s9) {
                                            Option::None => Option::None,
                                            Option::Some((device_path, s10)) => match parse_lit(
                                                s10,
                                                ",\"size\":"@,
                                            ) {
                                                Option::None => Option::None,
                                                Option::Some(s11) => match parse_int(s11) {
                                                    Option::None => Option::None,
                                                    Option::Some((size, s12)) => match parse_lit(
                                                        s12,
                                                        ",\"snapshot_id\":"@,
                                                    ) {
                                                        Option::None => Option::None,
                                                        Option::Some(s13) => match parse_jstr(
                                                            s13,
                                                        ) {
                                                            Option::None => Option::None,
                                                            Option::Some((snapshot_id, s14)) => match parse_lit(
                                                                s14,
                                                                ",\"time_created\":"@,
                                                            ) {
                                                                Option::None => Option::None,
                                                                Option::Some(s15) => match parse_opt(
                                                                    s15,
                                                                ) {
                                                                    Option::None => Option::None,
                                                                    Option::Some(
                                                                        (time_created, s16),
                                                                    ) => match parse_lit(
                                                                        s16,
                                                                        ",\"time_modified\":"@,
                                                                    ) {
                                                                        Option::None => Option::None,
                                                                        Option::Some(s17) => match parse_opt(
                                                                            s17,
                                                                        ) {
                                                                            Option::None => Option::None,
                                                                            Option::Some(
                                                                                (time_modified, s18),
                                                                            ) => match parse_lit(
                                                                                s18,
                                                                                "}"@,
                                                                            ) {
                                                                                Option::None => Option::None,
                                                                                Option::Some(
                                                                                    s19,
                                                                                ) => Option::Some(
                                                                                    (
                                                                                        RecordView {
                                                                                            id,
                                                                                            name,
                                                                                            description,
                                                                                            state,
                                                                                            device_path,
                                                                                            size,
                                                                                            snapshot_id,
                                                                                            time_created,
                                                                                            time_modified,
                                                                                        },
                                                                                        s19,
                                                                                    ),
                                                                                ),
                                                                            },
                                                                        },
                                                                    },
                                                                },
                                                            },
                                                        },
                                                    },
                                                },
                                            },
                                        },
                                    },
                                },
                            },
                        },
                    },
                },
            },
        },
    }
}

/// `scan_jstr` always consumes at least the closing quote.
proof fn lemma_scan_jstr_shrinks(s: Seq<char>)
    ensures
        match scan_jstr(s) {
            Option::Some((v, rest)) => rest.len() < s.len(),
            Option::None => true,
        },
    decreases s.len(),
{
    if s.len() == 0 {
    } else if s[0] == '"' {
    } else if s[0] == '\\' {
        if s.len() >= 2 && (s[1] == '"' || s[1] == '\\') {
            lemma_scan_jstr_shrinks(s.skip(2));
        }
    } else {
        lemma_scan_jstr_shrinks(s.drop_first());
    }
}

/// A successfully read record consumes at least one character.
proof fn lemma_parse_record_shrinks(s: Seq<char>)
    ensures
        match parse_record(s) {
            Option::Some((r, rest)) => rest.len() < s.len(),
            Option::None => true,
        },
{
    reveal(parse_record);
    if parse_record(s) is Some {
        reveal_strlit("{\"id\":");
        let s1 = parse_lit(s, "{\"id\":"@).unwrap();
        assert(s1.len() < s.len());
        let s2 = parse_jstr(s1).unwrap().1;
        lemma_parse_jstr_shrinks(s1);
        let s3 = parse_lit(s2, ",\"name\":"@).unwrap();
        let s4 = parse_jstr(s3).unwrap().1;
        lemma_parse_jstr_shrinks(s3);
        let s5 = parse_lit(s4, ",\"description\":"@).unwrap();
        let s6 = parse_jstr(s5).unwrap().1;
        lemma_parse_jstr_shrinks(s5);
        let s7 = parse_lit(s6, ",\"state\":"@).unwrap();
        let s8 = parse_jstr(s7).unwrap().1;
        lemma_parse_jstr_shrinks(s7);
        let s9 = parse_lit(s8, ",\"device_path\":"@).unwrap();
        let s10 = parse_jstr(s9).unwrap().1;
        lemma_parse_jstr_shrinks(s9);
        let s11 = parse_lit(s10, ",\"size\":"@).unwrap();
        let s12 = parse_int(s11).unwrap().1;
        lemma_parse_int_shrinks(s11);
        let s13 = parse_lit(s12, ",\"snapshot_id\":"@).unwrap();
        let s14 = parse_jstr(s13).unwrap().1;
        lemma_parse_jstr_shrinks(s13);
        let s15 = parse_lit(s14, ",\"time_created\":"@).unwrap();
        let s16 = parse_opt(s15).unwrap().1;
        lemma_parse_opt_shrinks(s15);
        let s17 = parse_lit(s16, ",\"time_modified\":"@).unwrap();
        let s18 = parse_opt(s17).unwrap().1;
        lemma_parse_opt_shrinks(s17);
        let s19 = parse_lit(s18, "}"@).unwrap();
        assert(s19.len() <= s18.len());
        assert(parse_record(s).unwrap().1 == s19);
    }
}

/// A digit run never runs past the end of the text.
proof fn lemma_digit_run_le(s: Seq<char>)
    ensures
        digit_run(s) <= s.len(),
    decreases s.len(),
{
    if s.len() > 0 && is_digit(s[0]) {
        lemma_digit_run_le(s.drop_first());
    }
}

/// A read numeral never consumes more than the text.
proof fn lemma_parse_int_shrinks(s: Seq<char>)
    ensures
        match parse_int(s) {
            Option::Some((v, rest)) => rest.len() <= s.len(),
            Option::None => true,
        },
{
    lemma_digit_run_le(s);
    if s.len() > 0 && s[0] == '-' {
        lemma_digit_run_le(s.drop_first());
    }
}

/// A read optional timestamp never consumes more than the text.
proof fn lemma_parse_opt_shrinks(s: Seq<char>)
    ensures
        match parse_opt(s) {
            Option::Some((v, rest)) => rest.len() <= s.len(),
            Option::None => true,
        },
{
    reveal_strlit("null");
    lemma_parse_int_shrinks(s);
}

/// A successfully read quoted string consumes at least one character.
proof fn lemma_parse_jstr_shrinks(s: Seq<char>)
    ensures
        match parse_jstr(s) {
            Option::Some((v, rest)) => rest.len() < s.len(),
            Option::None => true,
        },
{
    if s.len() > 0 && s[0] == '"' {
        lemma_scan_jstr_shrinks(s.drop_first());
    }
}

/// Reads `]`, or a comma-separated continuation of record objects ending in
/// `]`.
pub open spec fn parse_more(s: Seq<char>) -> Option<(Seq<RecordView>, Seq<char>)>
    decreases s.len(),
    via parse_more_decreases
{
    if s.len() > 0 && s[0] == ']' {
        Option::Some((Seq::<RecordView>::empty(), s.drop_first()))
    } else if s.len() > 0 && s[0] == ',' {
        match parse_record(s.drop_first()) {
            Option::Some((r, rest)) => match parse_more(rest) {
                Option::Some((rs, rest2)) => Option::Some((seq![r] + rs, rest2)),
                Option::None => Option::None,
            },
            Option::None => Option::None,
        }
    } else {
        Option::None
    }
}

#[via_fn]
proof fn parse_more_decreases(s: Seq<char>) {
    if s.len() > 0 && s[0] == ',' {
        lemma_parse_record_shrinks(s.drop_first());
    }
}

/// Reads a bracketed collection of record objects.
pub open spec fn parse_records(s: Seq<char>) -> Option<(Seq<RecordView>, Seq<char>)> {
    match parse_lit(s, "["@) {
        Option::None => Option::None,
        Option::Some(s1) => {
            if s1.len() > 0 && s1[0] == ']' {
                Option::Some((Seq::<RecordView>::empty(), s1.drop_first()))
            } else {
                match parse_record(s1) {
                    Option::Some((r, rest)) => match parse_more(rest) {
                        Option::Some((rs, rest2)) => Option::Some((seq![r] + rs, rest2)),
                        Option::None => Option::None,
                    },
                    Option::None => Option::None,
                }
            }
        },
    }
}

/// Consuming an emitted literal leaves exactly what followed it.
proof fn lemma_parse_lit_emit(lit: Seq<char>, rest: Seq<char>)
    ensures
        parse_lit(lit + rest, lit) == Option::Some(rest),
{
    let s = lit + rest;
    assert(s.subrange(0, lit.len() as int) =~= lit);
    assert(s.skip(lit.len() as int) =~= rest);
}

/// Scanning an escaped body followed by a closing quote recovers the
/// original characters.
proof fn lemma_scan_jstr_emit(v: Seq<char>, rest: Seq<char>)
    ensures
        scan_jstr(escape(v) + seq!['"'] + rest) == Option::Some((v, rest)),
    decreases v.len(),
{
    let s = escape(v) + seq!['"'] + rest;
    if v.len() == 0 {
        assert(s[0] == '"');
        assert(s.drop_first() =~= rest);
    } else {
        let c = v[0];
        let v2 = v.drop_first();
        assert(escape(v) == esc_char(c) + escape(v2));
        lemma_scan_jstr_emit(v2, rest);
        if c == '"' || c == '\\' {
            assert(s[0] == '\\');
            assert(s[1] == c);
            assert(s.len() >= 2);
            assert(s.skip(2) =~= escape(v2) + seq!['"'] + rest);
            assert(seq![s[1]] + v2 =~= v);
        } else {
            assert(s[0] == c);
            assert(s.drop_first() =~= escape(v2) + seq!['"'] + rest);
            assert(seq![s[0]] + v2 =~= v);
        }
    }
}

/// Reading a quoted string back from its emitted form recovers the
/// original characters.
proof fn lemma_parse_jstr_emit(v: Seq<char>, rest: Seq<char>)
    ensures
        parse_jstr(jstr(v) + rest) == Option::Some((v, rest)),
{
    let s = jstr(v) + rest;
    assert(s[0] == '"');
    assert(s.len() > 0);
    assert(s.drop_first() =~= escape(v) + seq!['"'] + rest);
    lemma_scan_jstr_emit(v, rest);
}

/// The digit run of a numeral followed by a non-digit is the numeral
/// itself.
proof fn lemma_digit_run_emit(d: Seq<char>, rest: Seq<char>)
    requires
        forall|i: int| 0 <= i < d.len() ==> is_digit(#[trigger] d[i]),
        rest.len() == 0 || !is_digit(rest[0]),
    ensures
        digit_run(d + rest) == d.len(),
    decreases d.len(),
{
    let s = d + rest;
    if d.len() == 0 {
        assert(s =~= rest);
    } else {
        assert(is_digit(s[0]));
        assert(s.drop_first() =~= d.drop_first() + rest);
        lemma_digit_run_emit(d.drop_first(), rest);
    }
}

/// Reading a natural number back from its numeral recovers it.
proof fn lemma_parse_nat_emit(n: nat, rest: Seq<char>)
    requires
        rest.len() == 0 || !is_digit(rest[0]),
        n <= 0x8000000000000000,
    ensures
        parse_nat(dec_digits(n) + rest) == Option::Some((n, rest)),
{
    let d = dec_digits(n);
    let s = d + rest;
    lemma_dec_digits_shape(n);
    lemma_digit_run_emit(d, rest);
    assert(digit_run(s) == d.len());
    lemma_pow10_vals();
    lemma_dec_digits_len(n, 19);
    assert(d.len() <= 19);
    assert(s.take(d.len() as int) =~= d);
    assert(s.skip(d.len() as int) =~= rest);
    lemma_digits_value_of_dec(n);
}

/// A digit character is neither a minus sign nor a letter.
proof fn lemma_digit_char_shape(c: char)
    requires
        is_digit(c),
    ensures
        c != '-',
        c != 'n',
{
}

/// Reading an integer back from its numeral recovers it.
proof fn lemma_parse_int_emit(v: int, rest: Seq<char>)
    requires
        rest.len() == 0 || !is_digit(rest[0]),
        in_i64(v),
    ensures
        parse_int(int_chars(v) + rest) == Option::Some((v, rest)),
{
    let s = int_chars(v) + rest;
    if v < 0 {
        let d = dec_digits((-v) as nat);
        assert(s[0] == '-');
        assert(s.drop_first() =~= d + rest);
        lemma_parse_nat_emit((-v) as nat, rest);
    } else {
        let d = dec_digits(v as nat);
        lemma_dec_digits_shape(v as nat);
        assert(s[0] == d[0]);
        lemma_digit_char_shape(d[0]);
        assert(s[0] != '-');
        assert(s =~= d + rest);
        lemma_parse_nat_emit(v as nat, rest);
    }
}

/// Reading an optional timestamp back from its emitted form recovers it.
proof fn lemma_parse_opt_emit(o: Option<int>, rest: Seq<char>)
    requires
        rest.len() == 0 || !is_digit(rest[0]),
        opt_in_i64(o),
    ensures
        parse_opt(opt_chars(o) + rest) == Option::Some((o, rest)),
{
    reveal_strlit("null");
    let s = opt_chars(o) + rest;
    match o {
        Option::None => {
            assert("null"@.len() == 4);
            assert(s.subrange(0, 4) =~= "null"@);
            assert(starts_with_spec(s, "null"@));
            assert(s.skip(4) =~= rest);
        },
        Option::Some(v) => {
            let num = int_chars(v);
            if v < 0 {
                assert(s[0] == '-');
            } else {
                lemma_dec_digits_shape(v as nat);
                lemma_digit_char_shape(num[0]);
                assert(s[0] == num[0]);
            }
            assert("null"@[0] == 'n');
            assert(s[0] != 'n');
            assert(!starts_with_spec(s, "null"@)) by {
                if starts_with_spec(s, "null"@) {
                    assert(s.subrange(0, 4)[0] == s[0]);
                }
            }
            lemma_parse_int_emit(v, rest);
        },
    }
}

/// An emitted record object begins with an opening brace.
proof fn lemma_record_json_head(r: RecordView)
    ensures
        record_json(r).len() > 0,
        record_json(r)[0] == '{',
{
    reveal_strlit("{\"id\":");
    assert(record_json(r)[0] == "{\"id\":"@[0]);
}

/// Reading a record back from its emitted object recovers it.
#[verifier::rlimit(100)]
proof fn lemma_parse_record_emit(r: RecordView, rest: Seq<char>)
    requires
        record_repr_ok(r),
    ensures
        parse_record(record_json(r) + rest) == Option::Some((r, rest)),
{
    reveal(parse_record);
    let t18 = "}"@ + rest;
    let t17 = opt_chars(r.time_modified) + t18;
    let t16 = ",\"time_modified\":"@ + t17;
    let t15 = opt_chars(r.time_created) + t16;
    let t14 = ",\"time_created\":"@ + t15;
    let t13 = jstr(r.snapshot_id) + t14;
    let t12 = ",\"snapshot_id\":"@ + t13;
    let t11 = int_chars(r.size) + t12;
    let t10 = ",\"size\":"@ + t11;
    let t9 = jstr(r.device_path) + t10;
    let t8 = ",\"device_path\":"@ + t9;
    let t7 = jstr(r.state) + t8;
    let t6 = ",\"state\":"@ + t7;
    let t5 = jstr(r.description) + t6;
    let t4 = ",\"description\":"@ + t5;
    let t3 = jstr(r.name) + t4;
    let t2 = ",\"name\":"@ + t3;
    let t1 = jstr(r.id) + t2;
    let s = "{\"id\":"@ + t1;
    assert(record_json(r) + rest =~= s);
    lemma_parse_lit_emit("{\"id\":"@, t1);
    lemma_parse_jstr_emit(r.id, t2);
    lemma_parse_lit_emit(",\"name\":"@, t3);
    lemma_parse_jstr_emit(r.name, t4);
    lemma_parse_lit_emit(",\"description\":"@, t5);
    lemma_parse_jstr_emit(r.description, t6);
    lemma_parse_lit_emit(",\"state\":"@, t7);
    lemma_parse_jstr_emit(r.state, t8);
    lemma_parse_lit_emit(",\"device_path\":"@, t9);
    lemma_parse_jstr_emit(r.device_path, t10);
    lemma_parse_lit_emit(",\"size\":"@, t11);
    reveal_strlit(",\"snapshot_id\":");
    assert(t12[0] == ',');
    assert(!is_digit(t12[0]));
    lemma_parse_int_emit(r.size, t12);
    lemma_parse_lit_emit(",\"snapshot_id\":"@, t13);
    lemma_parse_jstr_emit(r.snapshot_id, t14);
    lemma_parse_lit_emit(",\"time_created\":"@, t15);
    reveal_strlit(",\"time_modified\":");
    assert(t16[0] == ',');
    lemma_parse_opt_emit(r.time_created, t16);
    lemma_parse_lit_emit(",\"time_modified\":"@, t17);
    reveal_strlit("}");
    assert(t18[0] == '}');
    lemma_parse_opt_emit(r.time_modified, t18);
    lemma_parse_lit_emit("}"@, rest);
    assert(parse_record(s) == Option::Some((r, rest)));
}

/// The text after a collection's first record: each further record behind a
/// comma, then the closing bracket.
spec fn body_tail(rs: Seq<RecordView>) -> Seq<char>
    decreases rs.len(),
{
    if rs.len() == 0 {
        seq![']']
    } else {
        seq![','] + record_json(rs[0]) + body_tail(rs.drop_first())
    }
}

/// Reading a collection's continuation recovers the remaining records.
#[verifier::rlimit(100)]
proof fn lemma_parse_more_emit(rs: Seq<RecordView>, rest: Seq<char>)
    requires
        reprs_ok(rs),
    ensures
        parse_more(body_tail(rs) + rest) == Option::Some((rs, rest)),
    decreases rs.len(),
{
    let s = body_tail(rs) + rest;
    if rs.len() == 0 {
        assert(s =~= seq![']'] + rest);
        assert(s[0] == ']');
        assert(s.drop_first() =~= rest);
        assert(rs =~= Seq::<RecordView>::empty());
    } else {
        assert(s[0] == ',');
        assert(s[0] != ']');
        assert(s.drop_first() =~= record_json(rs[0]) + (body_tail(rs.drop_first()) + rest));
        lemma_parse_record_emit(rs[0], body_tail(rs.drop_first()) + rest);
        lemma_parse_more_emit(rs.drop_first(), rest);
        assert(seq![rs[0]] + rs.drop_first() =~= rs);
    }
}

/// A collection's emitted text is its first record followed by the tail
/// text.
proof fn lemma_records_json_structure(rs: Seq<RecordView>)
    requires
        rs.len() > 0,
    ensures
        records_body(rs) + seq![']'] == record_json(rs[0]) + body_tail(rs.drop_first()),
    decreases rs.len(),
{
    if rs.len() == 1 {
        assert(records_body(rs) + seq![']'] =~= record_json(rs[0]) + body_tail(rs.drop_first()));
    } else {
        lemma_records_json_structure(rs.drop_first());
        assert(records_body(rs) + seq![']'] =~= record_json(rs[0]) + (seq![','] + (records_body(
            rs.drop_first(),
        ) + seq![']'])));
        assert(record_json(rs[0]) + (seq![','] + (record_json(rs.drop_first()[0]) + body_tail(
            rs.drop_first().drop_first(),
        ))) =~= record_json(rs[0]) + body_tail(rs.drop_first()));
    }
}

/// Reading a collection back from its emitted text recovers the records.
#[verifier::rlimit(100)]
proof fn lemma_parse_records_emit(rs: Seq<RecordView>, rest: Seq<char>)
    requires
        reprs_ok(rs),
    ensures
        parse_records(records_json(rs) + rest) == Option::Some((rs, rest)),
{
    let s = records_json(rs) + rest;
    reveal_strlit("[");
    if rs.len() == 0 {
        let s1 = seq![']'] + rest;
        assert("["@.len() == 1);
        assert("["@[0] == '[');
        assert(records_body(rs) == Seq::<char>::empty());
        assert(s =~= seq!['['] + seq![']'] + rest);
        assert("["@ + s1 =~= seq!['['] + seq![']'] + rest);
        assert(s == "["@ + s1);
        lemma_parse_lit_emit("["@, s1);
        assert(s1[0] == ']');
        assert(s1.drop_first() =~= rest);
        assert(rs =~= Seq::<RecordView>::empty());
    } else {
        lemma_records_json_structure(rs);
        let s1 = record_json(rs[0]) + (body_tail(rs.drop_first()) + rest);
        let mid = records_body(rs) + seq![']'];
        assert(s =~= seq!['['] + (mid + rest));
        assert(mid + rest == (record_json(rs[0]) + body_tail(rs.drop_first())) + rest);
        assert((record_json(rs[0]) + body_tail(rs.drop_first())) + rest =~= s1);
        assert(seq!['['] =~= "["@);
        assert(s == "["@ + s1);
        lemma_parse_lit_emit("["@, s1);
        lemma_record_json_head(rs[0]);
        assert(s1[0] == '{');
        assert(s1[0] != ']');
        lemma_parse_record_emit(rs[0], body_tail(rs.drop_first()) + rest);
        lemma_parse_more_emit(rs.drop_first(), rest);
        assert(seq![rs[0]] + rs.drop_first() =~= rs);
    }
}

/// The round trip for one record: reading the emitted object of any
/// record yields exactly that record, with nothing left over.
pub proof fn lemma_decode_encode_record(r: RecordView)
    requires
        record_repr_ok(r),
    ensures
        parse_record(record_json(r)) == Option::Some((r, Seq::<char>::empty())),
{
    lemma_parse_record_emit(r, Seq::<char>::empty());
    assert(record_json(r) + Seq::<char>::empty() =~= record_json(r));
}

/// The round trip: reading the emitted text of any collection of records
/// yields exactly those records, with nothing left over.
pub proof fn lemma_decode_encode(rs: Seq<RecordView>)
    requires
        reprs_ok(rs),
    ensures
        parse_records(records_json(rs)) == Option::Some((rs, Seq::<char>::empty())),
{
    lemma_parse_records_emit(rs, Seq::<char>::empty());
    assert(records_json(rs) + Seq::<char>::empty() =~= records_json(rs));
}

/// A text whose first `m` characters are digits has a digit run of at
/// least `m`.
proof fn lemma_digit_run_min(s: Seq<char>, m: int)
    requires
        0 <= m <= s.len(),
        forall|i: int| 0 <= i < m ==> is_digit(#[trigger] s[i]),
    ensures
        digit_run(s) >= m,
    decreases m,
{
    if m > 0 {
        assert(is_digit(s[0]));
        assert(forall|i: int| 0 <= i < m - 1 ==> is_digit(#[trigger] s.drop_first()[i]));
        lemma_digit_run_min(s.drop_first(), m - 1);
    }
}

/// Consumes `lit` at position `i`, returning the position after it.
fn d_lit(s: &Vec<char>, i: usize, lit: &str) -> (r: Option<usize>)
    requires
        i <= s@.len(),
    ensures
        match r {
            Option::Some(j) => i <= j <= s@.len() && parse_lit(s@.skip(i as int), lit@)
                == Option::Some(s@.skip(j as int)),
            Option::None => parse_lit(s@.skip(i as int), lit@) is None,
        },
{
    let ghost t = s@.skip(i as int);
    let n = lit.unicode_len();
    if s.len() - i < n {
        assert(t.len() < lit@.len());
        return Option::None;
    }
    let mut k: usize = 0;
    while k < n
        invariant
            i + n <= s@.len() <= usize::MAX,
            n == lit@.len(),
            k <= n,
            t == s@.skip(i as int),
            forall|m: int| 0 <= m < k ==> t[m] == lit@[m],
        decreases n - k,
    {
        assert(i + k < s@.len());
        if s[i + k] != lit.get_char(k) {
            assert(t[k as int] == s@[i + k]);
            assert(t.subrange(0, n as int)[k as int] != lit@[k as int]);
            assert(t.subrange(0, n as int) != lit@);
            return Option::None;
        }
        assert(t[k as int] == s@[i + k]);
        k = k + 1;
    }
    assert(t.subrange(0, n as int) =~= lit@);
    assert(t.skip(n as int) =~= s@.skip(i + n));
    Option::Some(i + n)
}

/// Reads a quoted string at position `i`, returning its characters and the
/// position after the closing quote.
fn d_string(s: &Vec<char>, i: usize) -> (r: Option<(String, usize)>)
    requires
        i <= s@.len(),
    ensures
        match r {
            Option::Some((v, j)) => i <= j <= s@.len() && parse_jstr(s@.skip(i as int))
                == Option::Some((v@, s@.skip(j as int))),
            Option::None => parse_jstr(s@.skip(i as int)) is None,
        },
{
    let ghost t = s@.skip(i as int);
    if i >= s.len() || s[i] != '"' {
        assert(t.len() > 0 ==> t[0] == s@[i as int]);
        return Option::None;
    }
    assert(t[0] == s@[i as int]);
    assert(t.drop_first() =~= s@.skip(i + 1));
    let mut acc: Vec<char> = Vec::new();
    let mut k: usize = i + 1;
    loop
        invariant
            i + 1 <= k <= s@.len(),
            t == s@.skip(i as int),
            t.len() > 0 && t[0] == '"',
            scan_jstr(t.drop_first()) == match scan_jstr(s@.skip(k as int)) {
                Option::Some((v, rest)) => Option::Some((acc@ + v, rest)),
                Option::None => Option::None::<(Seq<char>, Seq<char>)>,
            },
        decreases s@.len() - k,
    {
        let ghost u = s@.skip(k as int);
        if k >= s.len() {
            assert(u.len() == 0);
            assert(scan_jstr(u) is None);
            return Option::None;
        }
        let c = s[k];
        assert(u[0] == s@[k as int]);
        if c == '"' {
            assert(scan_jstr(u) == Option::Some(
                (Seq::<char>::empty(), u.drop_first()),
            ));
            assert(u.drop_first() =~= s@.skip(k + 1));
            assert(acc@ + Seq::<char>::empty() =~= acc@);
            let out = chars_to_string(&acc);
            return Option::Some((out, k + 1));
        } else if c == '\\' {
            if k + 1 >= s.len() {
                assert(u.len() < 2);
                assert(scan_jstr(u) is None);
                return Option::None;
            }
            let c2 = s[k + 1];
            assert(u[1] == s@[k + 1]);
            if c2 == '"' || c2 == '\\' {
                assert(u.skip(2) =~= s@.skip(k + 2));
                let ghost acc0 = acc@;
                acc.push(c2);
                proof {
                    assert(forall|v: Seq<char>| acc0 + (seq![c2] + v) =~= (acc0 + seq![c2]) + v);
                }
                k = k + 2;
            } else {
                assert(scan_jstr(u) is None);
                return Option::None;
            }
        } else {
            assert(u.drop_first() =~= s@.skip(k + 1));
            let ghost acc0 = acc@;
            acc.push(c);
            proof {
                assert(forall|v: Seq<char>| acc0 + (seq![c] + v) =~= (acc0 + seq![c]) + v);
            }
            k = k + 1;
        }
    }
}

/// Reads a numeral at position `i`.
fn d_int(s: &Vec<char>, i: usize) -> (r: Option<(i64, usize)>)
    requires
        i <= s@.len(),
    ensures
        match r {
            Option::Some((v, j)) => i <= j <= s@.len() && parse_int(s@.skip(i as int))
                == Option::Some((v as int, s@.skip(j as int))),
            Option::None => parse_int(s@.skip(i as int)) is None,
        },
{
    let ghost t = s@.skip(i as int);
    let neg = i < s.len() && s[i] == '-';
    let start = if neg {
        i + 1
    } else {
        i
    };
    proof {
        if t.len() > 0 {
            assert(t[0] == s@[i as int]);
        }
        if neg {
            assert(t.drop_first() =~= s@.skip(start as int));
        }
        lemma_pow10_vals();
    }
    let ghost w = s@.skip(start as int);
    let mut acc: u64 = 0;
    let mut k: usize = start;
    while k < s.len() && is_digit_exec(s[k]) && k - start < 19
        invariant
            start <= k <= s@.len(),
            start <= s@.len(),
            k - start <= 19,
            w == s@.skip(start as int),
            forall|m: int| start <= m < k ==> is_digit(#[trigger] s@[m]),
            acc == digits_value(s@.subrange(start as int, k as int)),
            acc < pow10((k - start) as nat),
            pow10(18) == 1000000000000000000,
            pow10(19) == 10000000000000000000,
        decreases s@.len() - k,
    {
        let d = digit_val_exec(s[k]);
        proof {
            crate::numfmt::lemma_pow10_mono((k - start) as nat, 18);
            assert(acc < 1000000000000000000);
            let p = s@.subrange(start as int, k as int);
            let q = s@.subrange(start as int, k + 1 as int);
            assert(q.drop_last() =~= p);
            assert(q.last() == s@[k as int]);
            assert(pow10((k + 1 - start) as nat) == 10 * pow10((k - start) as nat));
        }
        acc = acc * 10 + d;
        k = k + 1;
    }
    let run = k - start;
    if k < s.len() && is_digit_exec(s[k]) {
        proof {
            assert(forall|m: int| 0 <= m < run + 1 ==> is_digit(#[trigger] w[m])) by {
                assert(forall|m: int| 0 <= m < run + 1 ==> w[m] == s@[start + m]);
            }
            lemma_digit_run_min(w, run + 1);
            assert(digit_run(w) > 19);
        }
        return Option::None;
    }
    proof {
        let d = s@.subrange(start as int, k as int);
        assert(forall|m: int| 0 <= m < d.len() ==> is_digit(#[trigger] d[m]));
        assert(w =~= d + s@.skip(k as int));
        lemma_digit_run_emit(d, s@.skip(k as int));
        assert(digit_run(w) == run);
    }
    if run == 0 {
        assert(parse_nat(w) is None);
        return Option::None;
    }
    proof {
        assert(w.take(run as int) =~= s@.subrange(start as int, k as int));
        assert(w.skip(run as int) =~= s@.skip(k as int));
        assert(parse_nat(w) == Option::Some((acc as nat, s@.skip(k as int))));
    }
    if neg {
        if acc > 9223372036854775808u64 {
            return Option::None;
        }
        if acc == 9223372036854775808u64 {
            return Option::Some((i64::MIN, k));
        }
        return Option::Some((-(acc as i64), k));
    }
    if acc >= 9223372036854775808u64 {
        return Option::None;
    }
    Option::Some((acc as i64, k))
}

/// Reads `null` or a numeral at position `i`.
fn d_opt(s: &Vec<char>, i: usize) -> (r: Option<(Option<i64>, usize)>)
    requires
        i <= s@.len(),
    ensures
        match r {
            Option::Some((o, j)) => i <= j <= s@.len() && parse_opt(s@.skip(i as int))
                == Option::Some(
                (
                    match o {
                        Option::Some(v) => Option::Some(v as int),
                        Option::None => Option::None::<int>,
                    },
                    s@.skip(j as int),
                ),
            ),
            Option::None => parse_opt(s@.skip(i as int)) is None,
        },
{
    let ghost t = s@.skip(i as int);
    proof {
        reveal_strlit("null");
    }
    match d_lit(s, i, "null") {
        Option::Some(j) => {
            proof {
                assert(starts_with_spec(t, "null"@));
                assert(t.skip(4) == s@.skip(j as int));
            }
            Option::Some((Option::None, j))
        },
        Option::None => {
            proof {
                assert(!starts_with_spec(t, "null"@));
            }
            match d_int(s, i) {
                Option::Some((v, j)) => Option::Some((Option::Some(v), j)),
                Option::None => Option::None,
            }
        },
    }
}

/// Reads one record object at position `i`.
#[verifier::rlimit(100)]
fn d_record(s: &Vec<char>, i: usize) -> (r: Option<(ResourceRecord, usize)>)
    requires
        i <= s@.len(),
    ensures
        match r {
            Option::Some((rec, j)) => i <= j <= s@.len() && parse_record(s@.skip(i as int))
                == Option::Some((rec@, s@.skip(j as int))),
            Option::None => parse_record(s@.skip(i as int)) is None,
        },
{
    proof {
        reveal(parse_record);
    }
    let j1 = match d_lit(s, i, "{\"id\":") {
        Option::Some(j) => j,
        Option::None => {
            return Option::None;
        },
    };
    let (id, j2) = match d_string(s, j1) {
        Option::Some(p) => p,
        Option::None => {
            return Option::None;
        },
    };
    let j3 = match d_lit(s, j2, ",\"name\":") {
        Option::Some(j) => j,
        Option::None => {
            return Option::None;
        },
    };
    let (name, j4) = match d_string(s, j3) {
        Option::Some(p) => p,
        Option::None => {
            return Option::None;
        },
    };
    let j5 = match d_lit(s, j4, ",\"description\":") {
        Option::Some(j) => j,
        Option::None => {
            return Option::None;
        },
    };
    let (description, j6) = match d_string(s, j5) {
        Option::Some(p) => p,
        Option::None => {
            return Option::None;
        },
    };
    let j7 = match d_lit(s, j6, ",\"state\":") {
        Option::Some(j) => j,
        Option::None => {
            return Option::None;
        },
    };
    let (state, j8) = match d_string(s, j7) {
        Option::Some(p) => p,
        Option::None => {
            return Option::None;
        },
    };
    let j9 = match d_lit(s, j8, ",\"device_path\":") {
        Option::Some(j) => j,
        Option::None => {
            return Option::None;
        },
    };
    let (device_path, j10) = match d_string(s, j9) {
        Option::Some(p) => p,
        Option::None => {
            return Option::None;
        },
    };
    let j11 = match d_lit(s, j10, ",\"size\":") {
        Option::Some(j) => j,
        Option::None => {
            return Option::None;
        },
    };
    let (size, j12) = match d_int(s, j11) {
        Option::Some(p) => p,
        Option::None => {
            return Option::None;
        },
    };
    let j13 = match d_lit(s, j12, ",\"snapshot_id\":") {
        Option::Some(j) => j,
        Option::None => {
            return Option::None;
        },
    };
    let (snapshot_id, j14) = match d_string(s, j13) {
        Option::Some(p) => p,
        Option::None => {
            return Option::None;
        },
    };
    let j15 = match d_lit(s, j14, ",\"time_created\":") {
        Option::Some(j) => j,
        Option::None => {
            return Option::None;
        },
    };
    let (time_created, j16) = match d_opt(s, j15) {
        Option::Some(p) => p,
        Option::None => {
            return Option::None;
        },
    };
    let j17 = match d_lit(s, j16, ",\"time_modified\":") {
        Option::Some(j) => j,
        Option::None => {
            return Option::None;
        },
    };
    let (time_modified, j18) = match d_opt(s, j17) {
        Option::Some(p) => p,
        Option::None => {
            return Option::None;
        },
    };
    let j19 = match d_lit(s, j18, "}") {
        Option::Some(j) => j,
        Option::None => {
            return Option::None;
        },
    };
    let rec = ResourceRecord {
        id,
        name,
        description,
        state,
        device_path,
        size,
        snapshot_id,
        time_created,
        time_modified,
    };
    assert(parse_record(s@.skip(i as int)) == Option::Some((rec@, s@.skip(j19 as int))));
    Option::Some((rec, j19))
}

/// Reads one record back from structured text.
///
/// The result is the full parse of the text: a record exactly when the
/// text is a single well-formed object with nothing trailing it.
pub fn decode_record(s: &str) -> (r: Option<ResourceRecord>)
    ensures
        match r {
            Option::Some(rec) => parse_record(s@) == Option::Some(
                (rec@, Seq::<char>::empty()),
            ),
            Option::None => match parse_record(s@) {
                Option::Some((x, rest)) => rest.len() > 0,
                Option::None => true,
            },
        },
{
    let chars = crate::text::string_chars(s);
    let n = chars.len();
    assert(s@.skip(0) =~= s@);
    match d_record(&chars, 0) {
        Option::Some((rec, j)) => {
            if j == n {
                assert(s@.skip(j as int) =~= Seq::<char>::empty());
                Option::Some(rec)
            } else {
                assert(s@.skip(j as int).len() > 0);
                Option::None
            }
        },
        Option::None => Option::None,
    }
}

/// Reads a whole collection of records back from structured text.
///
/// The result is the full parse of the text: a vector of records exactly
/// when the text is a well-formed collection with nothing trailing it.
pub fn decode_records(s: &str) -> (r: Option<Vec<ResourceRecord>>)
    ensures
        match r {
            Option::Some(v) => parse_records(s@) == Option::Some(
                (records_view(v@), Seq::<char>::empty()),
            ),
            Option::None => match parse_records(s@) {
                Option::Some((x, rest)) => rest.len() > 0,
                Option::None => true,
            },
        },
{
    let chars = crate::text::string_chars(s);
    let n = chars.len();
    let j0 = match d_lit(&chars, 0, "[") {
        Option::Some(j) => j,
        Option::None => {
            assert(s@.skip(0) =~= s@);
            return Option::None;
        },
    };
    assert(s@.skip(0) =~= s@);
    let mut out: Vec<ResourceRecord> = Vec::new();
    let mut j: usize;
    if j0 < n && chars[j0] == ']' {
        assert(s@.skip(j0 as int)[0] == ']');
        assert(s@.skip(j0 as int).drop_first() =~= s@.skip(j0 + 1));
        assert(records_view(out@) =~= Seq::<RecordView>::empty());
        j = j0 + 1;
        assert(parse_records(s@) == Option::Some((records_view(out@), s@.skip(j as int))));
    } else {
        proof {
            if j0 < s@.len() {
                assert(s@.skip(j0 as int)[0] == s@[j0 as int]);
            }
        }
        let (r0, mut jr) = match d_record(&chars, j0) {
            Option::Some(p) => p,
            Option::None => {
                return Option::None;
            },
        };
        out.push(r0);
        assert(records_view(out@) =~= seq![r0@]);
        loop
            invariant
                jr <= n,
                n == s@.len(),
                chars@ == s@,
                forall|rs2: Seq<RecordView>, rest: Seq<char>|
                    parse_more(s@.skip(jr as int)) == Option::Some((rs2, rest))
                        ==> parse_records(s@) == Option::Some((records_view(out@) + rs2, rest)),
                parse_more(s@.skip(jr as int)) is None ==> parse_records(s@) is None,
            ensures
                j <= n,
                parse_records(s@) == Option::Some((records_view(out@), s@.skip(j as int))),
            decreases n - jr,
        {
            let ghost u = s@.skip(jr as int);
            if jr >= n {
                assert(u.len() == 0);
                assert(parse_more(u) is None);
                return Option::None;
            }
            let c = chars[jr];
            assert(u[0] == s@[jr as int]);
            if c == ']' {
                proof {
                    assert(parse_more(u) == Option::Some(
                        (Seq::<RecordView>::empty(), u.drop_first()),
                    ));
                    assert(u.drop_first() =~= s@.skip(jr + 1));
                    assert(records_view(out@) + Seq::<RecordView>::empty() =~= records_view(out@));
                }
                j = jr + 1;
                break;
            } else if c == ',' {
                assert(u.drop_first() =~= s@.skip(jr + 1));
                let (rec, j2) = match d_record(&chars, jr + 1) {
                    Option::Some(p) => p,
                    Option::None => {
                        assert(parse_more(u) is None);
                        return Option::None;
                    },
                };
                let ghost out0 = out@;
                proof {
                    lemma_parse_record_shrinks(s@.skip(jr + 1));
                }
                out.push(rec);
                proof {
                    assert(records_view(out@) =~= records_view(out0).push(rec@));
                    assert(forall|rs3: Seq<RecordView>|
                        records_view(out0) + (seq![rec@] + rs3) =~= records_view(out0).push(rec@)
                            + rs3);
                }
                jr = j2;
            } else {
                assert(parse_more(u) is None);
                return Option::None;
            }
        }
    }
    if j == n {
        assert(s@.skip(n as int) =~= Seq::<char>::empty());
        Option::Some(out)
    } else {
        assert(s@.skip(j as int).len() > 0);
        Option::None
    }
}

} // verus!
