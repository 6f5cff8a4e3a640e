//! gNMI dial-out: configuration, service state and the text printed for
//! each notification.

use vstd::prelude::*;
use vstd::string::StringExecFns;
use vstd::utf8::{decode_utf8, valid_utf8};

use crate::chunk::{concat_all, lemma_concat_take_step};
use crate::json::{
    json_compact_text, json_pretty_text, json_rendering, json_text_parses, reformat_json, utf8_decode,
};
use crate::text::{decimal, push_decimal, push_signed_decimal, push_text, signed_decimal, str_eq};

verus! {

/// Configuration for the gNMI service.
#[derive(Debug, Clone, Copy, PartialEq, Eq)]
pub struct GnmiConfig {
    pub orignal: bool,
    pub format_json: bool,
    pub including_default: bool,
    pub performance_mode: bool,
}

/// gNMI dial-out service.
#[derive(Debug, Clone, Copy)]
pub struct GnmiDialoutService {
    pub config: GnmiConfig,
}

impl GnmiDialoutService {
    /// A service with the given options.
    pub fn new(config: GnmiConfig) -> (s: Self)
        ensures
            s.config == config,
    {
        GnmiDialoutService { config }
    }
}

/// The value of an update, as far as the collector reads it.
#[derive(Debug, Clone)]
pub enum GnmiValue {
    /// A `json_val`.
    Json(Vec<u8>),
    /// A `json_ietf_val`.
    JsonIetf(Vec<u8>),
    /// A value of any other kind.
    Other,
}

/// One update of a notification: its path's element names, the path as it
/// is displayed, and its value (`None` when the update has none).
#[derive(Debug, Clone)]
pub struct GnmiUpdate {
    pub path_elems: Vec<String>,
    pub path_debug: String,
    pub value: Option<GnmiValue>,
}

/// A notification: timestamp, prefix element names and updates.
#[derive(Debug, Clone)]
pub struct GnmiNotification {
    pub timestamp: i64,
    pub prefix_elems: Vec<String>,
    pub updates: Vec<GnmiUpdate>,
}

/// The texts of a list of strings.
pub open spec fn names_view(v: Seq<String>) -> Seq<Seq<char>> {
    v.map_values(|s: String| s@)
}

/// The parts joined with `/` between them.
pub open spec fn join_slash(parts: Seq<Seq<char>>) -> Seq<char>
    decreases parts.len(),
{
    if parts.len() == 0 {
        Seq::empty()
    } else if parts.len() == 1 {
        parts[0]
    } else {
        join_slash(parts.drop_last()) + "/"@ + parts.last()
    }
}

/// The xpath of a notification: its prefix then its first update's path.
pub open spec fn notification_xpath(n: GnmiNotification) -> Seq<char> {
    join_slash(names_view(n.prefix_elems@) + names_view(n.updates@[0].path_elems@))
}

/// The first line of row `i` (0-based).
pub open spec fn row_head(i: int, path_debug: Seq<char>) -> Seq<char> {
    "row "@ + decimal((i + 1) as nat) + ":\npath: "@ + path_debug + "\n"@
}

/// The JSON bytes of a value, if it has some.
pub open spec fn json_bytes(v: GnmiValue) -> Option<Seq<u8>> {
    match v {
        GnmiValue::Json(b) => Some(b@),
        GnmiValue::JsonIetf(b) => Some(b@),
        GnmiValue::Other => None,
    }
}

/// The text printed for update `u` as row `i`: nothing for an update
/// without a value; a note for a value that is not JSON or not UTF-8; the
/// value itself when it is `null`; its re-rendering (indented when
/// `format_json`) when it is JSON; and the text with an error note
/// otherwise.
pub open spec fn row_text(i: int, u: GnmiUpdate, format_json: bool) -> Seq<char> {
    let head = row_head(i, u.path_debug@);
    match u.value {
        None => Seq::<char>::empty(),
        Some(v) => match json_bytes(v) {
            None => head + "no json_val field\n"@,
            Some(b) => if !valid_utf8(b) {
                head + "json_val is not valid UTF-8\n"@
            } else {
                let s = decode_utf8(b);
                if s == "null"@ {
                    head + "json_val: \"null\"\n"@
                } else if json_text_parses(s) {
                    head + "json_val:\n"@ + json_rendering(s, format_json) + "\n"@
                } else {
                    head + "original json_val:\n"@ + s + "\njson format error\n"@
                }
            },
        },
    }
}

/// The row texts of all updates of a notification, in order.
pub open spec fn rows_text(n: GnmiNotification, format_json: bool) -> Seq<Seq<char>> {
    Seq::new(n.updates@.len(), |i: int| row_text(i, n.updates@[i], format_json))
}

/// The output for a notification with the given row texts.
pub open spec fn response_text(
    n: GnmiNotification,
    rows: Seq<char>,
    count: u64,
    peer: Seq<char>,
) -> Seq<char> {
    "response:\ntimestamp: \""@ + signed_decimal(n.timestamp as int) + "\"\nxpath: \""@
        + notification_xpath(n) + "\"\n"@ + rows
        + "\n=======================gRPC gNMI server count: "@ + decimal(count as nat)
        + " source addr: "@ + peer + "=================="@
}

/// Appends part `k` of a `/`-join whose first `k` parts are already in `s`.
proof fn lemma_join_step(parts: Seq<Seq<char>>, k: int)
    requires
        0 <= k < parts.len(),
    ensures
        join_slash(parts.take(k + 1)) == (if k == 0 {
            parts[0]
        } else {
            join_slash(parts.take(k)) + "/"@ + parts[k]
        }),
{
    assert(parts.take(k + 1).drop_last() =~= parts.take(k));
}

fn push_part(s: &mut String, part: &str, first: bool)
    ensures
        final(s)@ == (if first {
            old(s)@ + part@
        } else {
            old(s)@ + "/"@ + part@
        }),
{
    if !first {
        push_text(s, "/");
    }
    push_text(s, part);
}

/// The names of `a` then those of `b`, joined with `/`.
pub fn join_names(a: &Vec<String>, b: &Vec<String>) -> (s: String)
    ensures
        s@ == join_slash(names_view(a@) + names_view(b@)),
{
    let ghost parts = names_view(a@) + names_view(b@);
    let na = a.len();
    let nb = b.len();
    let mut s = String::new();
    let mut i: usize = 0;
    while i < na
        invariant
            na == a@.len(),
            nb == b@.len(),
            parts == names_view(a@) + names_view(b@),
            0 <= i <= na,
            s@ == join_slash(parts.take(i as int)),
        decreases na - i,
    {
        proof {
            lemma_join_step(parts, i as int);
            if i == 0 {
                assert(Seq::<char>::empty() + parts[0] =~= parts[0]);
            }
        }
        push_part(&mut s, a[i].as_str(), i == 0);
        i = i + 1;
    }
    let mut j: usize = 0;
    while j < nb
        invariant
            na == a@.len(),
            nb == b@.len(),
            parts == names_view(a@) + names_view(b@),
            0 <= j <= nb,
            s@ == join_slash(parts.take(na + j)),
        decreases nb - j,
    {
        proof {
            lemma_join_step(parts, na + j);
            assert(parts[na + j] == b@[j as int]@);
            if na + j == 0 {
                assert(Seq::<char>::empty() + parts[0] =~= parts[0]);
            }
        }
        push_part(&mut s, b[j].as_str(), na == 0 && j == 0);
        j = j + 1;
    }
    assert(parts.take(na + nb) =~= parts);
    s
}

/// The text of update `u` as row `i` (0-based).
pub fn gnmi_row(i: usize, u: &GnmiUpdate, format_json: bool) -> (t: String)
    requires
        i < u64::MAX,
    ensures
        t@ == row_text(i as int, *u, format_json),
{
    let bytes: &Vec<u8> = match &u.value {
        None => {
            return String::new();
        },
        Some(GnmiValue::Json(b)) => b,
        Some(GnmiValue::JsonIetf(b)) => b,
        Some(GnmiValue::Other) => {
            let mut t = String::from_str("row ");
            push_decimal(&mut t, i as u64 + 1);
            push_text(&mut t, ":\npath: ");
            push_text(&mut t, u.path_debug.as_str());
            push_text(&mut t, "\n");
            push_text(&mut t, "no json_val field\n");
            return t;
        },
    };
    let mut t = String::from_str("row ");
    push_decimal(&mut t, i as u64 + 1);
    push_text(&mut t, ":\npath: ");
    push_text(&mut t, u.path_debug.as_str());
    push_text(&mut t, "\n");
    let ghost head = t@;
    assert(head == row_head(i as int, u.path_debug@));
    match utf8_decode(bytes.as_slice()) {
        None => {
            push_text(&mut t, "json_val is not valid UTF-8\n");
            t
        },
        Some(json_str) => {
            if str_eq(json_str, "null") {
                push_text(&mut t, "json_val: \"null\"\n");
                t
            } else {
                match reformat_json(json_str, format_json) {
                    Ok(f) => {
                        push_text(&mut t, "json_val:\n");
                        push_text(&mut t, f.as_str());
                        push_text(&mut t, "\n");
                        assert(t@ == head + "json_val:\n"@ + f@ + "\n"@);
                        t
                    },
                    Err(_) => {
                        push_text(&mut t, "original json_val:\n");
                        push_text(&mut t, json_str);
                        push_text(&mut t, "\njson format error\n");
                        t
                    },
                }
            }
        },
    }
}

/// The output for a notification: `None` when it has no update; otherwise
/// its timestamp, xpath and the rows of all its updates in order.
pub fn gnmi_response(n: &GnmiNotification, format_json: bool, count: u64, peer: &str) -> (r: Option<
    String,
>)
    ensures
        r is None <==> n.updates@.len() == 0,
        r matches Some(s) ==> s@ == response_text(
            *n,
            concat_all(rows_text(*n, format_json)),
            count,
            peer@,
        ),
{
    let len = n.updates.len();
    if len == 0 {
        return None;
    }
    let xpath = join_names(&n.prefix_elems, &n.updates[0].path_elems);
    let mut rows_out = String::new();
    let ghost rows = rows_text(*n, format_json);
    let mut i: usize = 0;
    while i < len
        invariant
            len == n.updates@.len(),
            rows == rows_text(*n, format_json),
            0 <= i <= len,
            rows_out@ == concat_all(rows.take(i as int)),
        decreases len - i,
    {
        let row = gnmi_row(i, &n.updates[i], format_json);
        push_text(&mut rows_out, row.as_str());
        proof {
            lemma_concat_take_step(rows, i as int);
        }
        i = i + 1;
    }
    assert(rows.take(len as int) =~= rows);
    let mut s = String::from_str("response:\ntimestamp: \"");
    push_signed_decimal(&mut s, n.timestamp);
    push_text(&mut s, "\"\nxpath: \"");
    push_text(&mut s, xpath.as_str());
    push_text(&mut s, "\"\n");
    push_text(&mut s, rows_out.as_str());
    push_text(&mut s, "\n=======================gRPC gNMI server count: ");
    push_decimal(&mut s, count);
    push_text(&mut s, " source addr: ");
    push_text(&mut s, peer);
    push_text(&mut s, "==================");
    Some(s)
}


/// The format flag decides a JSON row's rendering: for an update whose
/// value is JSON text `s` (not `null`), the rows printed with and without
/// formatting are the same text around the value, which is the pretty
/// rendering of `s` with formatting and the compact one without.
pub proof fn law_gnmi_row_follows_format(i: int, u: GnmiUpdate, b: Seq<u8>)
    requires
        u.value matches Some(v) && json_bytes(v) == Some(b),
        valid_utf8(b),
        decode_utf8(b) != "null"@,
        json_text_parses(decode_utf8(b)),
    ensures
        exists|pre: Seq<char>, post: Seq<char>|
            {
                &&& row_text(i, u, true) == #[trigger] (pre + json_pretty_text(decode_utf8(b)) + post)
                &&& row_text(i, u, false) == pre + json_compact_text(decode_utf8(b)) + post
            },
        row_text(i, u, true) == row_head(i, u.path_debug@) + "json_val:\n"@ + json_pretty_text(
            decode_utf8(b),
        ) + "\n"@,
        row_text(i, u, false) == row_head(i, u.path_debug@) + "json_val:\n"@ + json_compact_text(
            decode_utf8(b),
        ) + "\n"@,
{
    let pre = row_head(i, u.path_debug@) + "json_val:\n"@;
    let s = decode_utf8(b);
    assert(row_text(i, u, true) == pre + json_pretty_text(s) + "\n"@);
    assert(row_text(i, u, false) == pre + json_compact_text(s) + "\n"@);
}

} // verus!
