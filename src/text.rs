//! Column justification by display width, and the comma-separated result line.
use unicode_width::UnicodeWidthStr;
use vstd::prelude::*;

verus! {

/// Display width in terminal columns of a string, as the `unicode-width`
/// crate computes it.
pub uninterp spec fn display_width(s: Seq<char>) -> nat;

/// Relies on `unicode_width::UnicodeWidthStr::width` for `str`: the number of
/// columns the string takes, a function of its characters.
#[verifier::external_body]
fn str_width(s: &str) -> (r: usize)
    ensures
        r == display_width(s@),
{
    UnicodeWidthStr::width(s)
}

pub open spec fn spaces(n: nat) -> Seq<char> {
    Seq::new(n, |i: int| ' ')
}

/// `name` padded with spaces up to `length` columns: on the right when
/// `left_right`, on the left otherwise. A name at least that wide is kept.
pub open spec fn justified(name: Seq<char>, length: nat, left_right: bool) -> Seq<char> {
    let w = display_width(name);
    if w < length {
        if left_right {
            name + spaces((length - w) as nat)
        } else {
            spaces((length - w) as nat) + name
        }
    } else {
        name
    }
}

fn make_spaces(n: usize) -> (r: String)
    ensures
        r@ == spaces(n as nat),
{
    let mut r = String::new();
    let mut i: usize = 0;
    proof {
        reveal_strlit(" ");
    }
    while i < n
        invariant
            i <= n,
            r@ == spaces(i as nat),
            " "@ == seq![' '],
        decreases n - i,
    {
        r.append(" ");
        i = i + 1;
        assert(r@ =~= spaces(i as nat));
    }
    r
}

/// Pads `name` with spaces to `length` display columns (see `justified`).
pub fn justify_name(name: &str, length: u8, left_right: bool) -> (r: String)
    ensures
        r@ == justified(name@, length as nat, left_right),
{
    let width = str_width(name);
    if width < length as usize {
        let pad = make_spaces(length as usize - width);
        if left_right {
            let r = String::from_str(name);
            r.concat(pad.as_str())
        } else {
            pad.concat(name)
        }
    } else {
        String::from_str(name)
    }
}

/// Column widths of the six fields of the result line.
pub const UPLOAD_WIDTH: u8 = 9;
pub const STATUS_WIDTH: u8 = 5;
pub const DOWNLOAD_WIDTH: u8 = 9;
pub const LATENCY_WIDTH: u8 = 7;
pub const JITTER_WIDTH: u8 = 7;

/// The result line: six fields, each right-aligned to its column, joined by commas.
pub open spec fn line_of(
    upload: Seq<char>,
    upload_status: Seq<char>,
    download: Seq<char>,
    download_status: Seq<char>,
    latency: Seq<char>,
    jitter: Seq<char>,
) -> Seq<char> {
    justified(upload, UPLOAD_WIDTH as nat, false) + seq![','] + justified(
        upload_status,
        STATUS_WIDTH as nat,
        false,
    ) + seq![','] + justified(download, DOWNLOAD_WIDTH as nat, false) + seq![','] + justified(
        download_status,
        STATUS_WIDTH as nat,
        false,
    ) + seq![','] + justified(latency, LATENCY_WIDTH as nat, false) + seq![','] + justified(
        jitter,
        JITTER_WIDTH as nat,
        false,
    )
}

/// Builds the result line from the six field texts.
pub fn result_line(
    upload: &str,
    upload_status: &str,
    download: &str,
    download_status: &str,
    latency: &str,
    jitter: &str,
) -> (r: String)
    ensures
        r@ == line_of(upload@, upload_status@, download@, download_status@, latency@, jitter@),
{
    proof {
        reveal_strlit(",");
    }
    let mut r = justify_name(upload, UPLOAD_WIDTH, false);
    r.append(",");
    r.append(justify_name(upload_status, STATUS_WIDTH, false).as_str());
    r.append(",");
    r.append(justify_name(download, DOWNLOAD_WIDTH, false).as_str());
    r.append(",");
    r.append(justify_name(download_status, STATUS_WIDTH, false).as_str());
    r.append(",");
    r.append(justify_name(latency, LATENCY_WIDTH, false).as_str());
    r.append(",");
    r.append(justify_name(jitter, JITTER_WIDTH, false).as_str());
    r
}

/// Occurrences of `c` in `s`.
pub open spec fn occurrences(s: Seq<char>, c: char) -> nat
    decreases s.len(),
{
    if s.len() == 0 {
        0
    } else {
        occurrences(s.drop_last(), c) + if s.last() == c {
            1nat
        } else {
            0nat
        }
    }
}

proof fn lemma_occurrences_concat(a: Seq<char>, b: Seq<char>, c: char)
    ensures
        occurrences(a + b, c) == occurrences(a, c) + occurrences(b, c),
    decreases b.len(),
{
    if b.len() > 0 {
        assert((a + b).drop_last() =~= a + b.drop_last());
        lemma_occurrences_concat(a, b.drop_last(), c);
    }
}

proof fn lemma_no_comma_in_spaces(n: nat)
    ensures
        occurrences(spaces(n), ',') == 0,
    decreases n,
{
    if n > 0 {
        assert(spaces(n).drop_last() =~= spaces((n - 1) as nat));
        lemma_no_comma_in_spaces((n - 1) as nat);
    }
}

proof fn lemma_justified_no_comma(name: Seq<char>, length: nat)
    requires
        occurrences(name, ',') == 0,
    ensures
        occurrences(justified(name, length, false), ',') == 0,
{
    let w = display_width(name);
    if w < length {
        lemma_no_comma_in_spaces((length - w) as nat);
        lemma_occurrences_concat(spaces((length - w) as nat), name, ',');
    }
}

/// The result line has six comma-separated fields: when no field text holds a
/// comma, the line holds exactly five, and each field is the text right-aligned
/// to its column width.
pub proof fn lemma_line_has_six_fields(
    upload: Seq<char>,
    upload_status: Seq<char>,
    download: Seq<char>,
    download_status: Seq<char>,
    latency: Seq<char>,
    jitter: Seq<char>,
)
    requires
        occurrences(upload, ',') == 0,
        occurrences(upload_status, ',') == 0,
        occurrences(download, ',') == 0,
        occurrences(download_status, ',') == 0,
        occurrences(latency, ',') == 0,
        occurrences(jitter, ',') == 0,
    ensures
        occurrences(line_of(upload, upload_status, download, download_status, latency, jitter), ',')
            == 5,
{
    let f0 = justified(upload, UPLOAD_WIDTH as nat, false);
    let f1 = justified(upload_status, STATUS_WIDTH as nat, false);
    let f2 = justified(download, DOWNLOAD_WIDTH as nat, false);
    let f3 = justified(download_status, STATUS_WIDTH as nat, false);
    let f4 = justified(latency, LATENCY_WIDTH as nat, false);
    let f5 = justified(jitter, JITTER_WIDTH as nat, false);
    lemma_justified_no_comma(upload, UPLOAD_WIDTH as nat);
    lemma_justified_no_comma(upload_status, STATUS_WIDTH as nat);
    lemma_justified_no_comma(download, DOWNLOAD_WIDTH as nat);
    lemma_justified_no_comma(download_status, STATUS_WIDTH as nat);
    lemma_justified_no_comma(latency, LATENCY_WIDTH as nat);
    lemma_justified_no_comma(jitter, JITTER_WIDTH as nat);
    let comma = seq![','];
    assert(occurrences(comma, ',') == 1) by {
        assert(comma.drop_last() =~= Seq::<char>::empty());
        assert(occurrences(comma.drop_last(), ',') == 0);
        assert(comma.last() == ',');
    }
    let p1 = f0 + comma;
    lemma_occurrences_concat(f0, comma, ',');
    let p2 = p1 + f1;
    lemma_occurrences_concat(p1, f1, ',');
    let p3 = p2 + comma;
    lemma_occurrences_concat(p2, comma, ',');
    let p4 = p3 + f2;
    lemma_occurrences_concat(p3, f2, ',');
    let p5 = p4 + comma;
    lemma_occurrences_concat(p4, comma, ',');
    let p6 = p5 + f3;
    lemma_occurrences_concat(p5, f3, ',');
    let p7 = p6 + comma;
    lemma_occurrences_concat(p6, comma, ',');
    let p8 = p7 + f4;
    lemma_occurrences_concat(p7, f4, ',');
    let p9 = p8 + comma;
    lemma_occurrences_concat(p8, comma, ',');
    let p10 = p9 + f5;
    lemma_occurrences_concat(p9, f5, ',');
}

} // verus!
