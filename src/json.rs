use vstd::prelude::*;
use vstd::string::StringExecFns;
use crate::task::Task;

verus! {

/// The topic on which every updated task is announced.
pub const TASK_TOPIC: &'static str = "task_updates";

/// The JSON string literal that serde_json writes for `s`, quotes included.
pub uninterp spec fn json_string_of(s: Seq<char>) -> Seq<char>;

/// The RFC 3339 text that chrono writes for an instant given in microseconds
/// since the Unix epoch (seconds as needed for the fraction, `Z` for UTC).
pub uninterp spec fn rfc3339_of(micros: int) -> Seq<char>;

/// Instants that chrono's calendar holds with room to spare: about 253,000
/// years either side of the Unix epoch, in microseconds.
pub open spec fn in_calendar(micros: int) -> bool {
    -8_000_000_000_000_000_000 <= micros <= 8_000_000_000_000_000_000
}

/// The character of a decimal digit.
pub open spec fn digit_char(d: nat) -> char {
    if d == 0 { '0' }
    else if d == 1 { '1' }
    else if d == 2 { '2' }
    else if d == 3 { '3' }
    else if d == 4 { '4' }
    else if d == 5 { '5' }
    else if d == 6 { '6' }
    else if d == 7 { '7' }
    else if d == 8 { '8' }
    else { '9' }
}

/// The decimal digits of `n`, most significant first, without leading zeros.
pub open spec fn digits(n: nat) -> Seq<char>
    decreases n,
{
    if n < 10 {
        seq![digit_char(n)]
    } else {
        digits(n / 10) + seq![digit_char(n % 10)]
    }
}

/// The decimal text of an integer, with a leading `-` when it is negative.
pub open spec fn decimal(n: int) -> Seq<char> {
    if n < 0 {
        seq!['-'] + digits((-n) as nat)
    } else {
        digits(n as nat)
    }
}

/// The compact JSON object of a task, fields in declaration order, built from
/// the already rendered texts of its parts (timestamps unquoted).
pub open spec fn task_json(
    id: Seq<char>,
    title: Seq<char>,
    description: Option<Seq<char>>,
    completed: bool,
    created_at: Seq<char>,
    updated_at: Seq<char>,
) -> Seq<char> {
    "{\"id\":"@ + id + ",\"title\":"@ + title + ",\"description\":"@ + match description {
        Some(d) => d,
        None => "null"@,
    } + ",\"completed\":"@ + (if completed {
        "true"@
    } else {
        "false"@
    }) + ",\"created_at\":\""@ + created_at + "\",\"updated_at\":\""@ + updated_at + "\"}"@
}

/// The JSON text of a task: what the HTTP surface returns and what is published.
pub open spec fn task_json_of(t: Task) -> Seq<char> {
    task_json(
        decimal(t.id as int),
        json_string_of(t.title@),
        match t.description {
            Some(d) => Some(json_string_of(d@)),
            None => None,
        },
        t.completed,
        rfc3339_of(t.created_at as int),
        rfc3339_of(t.updated_at as int),
    )
}

/// Relies on `serde_json::to_string` on a `str`: a quoted, escaped JSON
/// string, written into a `Vec`, which never fails.
#[verifier::external_body]
fn json_string(s: &str) -> (r: Option<String>)
    ensures
        r is Some,
        r matches Some(j) ==> j@ == json_string_of(s@),
{
    serde_json::to_string(s).ok()
}

/// Relies on `chrono::DateTime::<Utc>::from_timestamp_micros`, which yields
/// `None` outside chrono's calendar, and on `to_rfc3339_opts(AutoSi, true)`,
/// the format chrono's serde support writes. The calendar spans years
/// -262,143 to 262,142, so every instant `in_calendar` converts.
#[verifier::external_body]
fn timestamp_text(micros: i64) -> (r: Option<String>)
    ensures
        in_calendar(micros as int) ==> r is Some,
        r matches Some(s) ==> s@ == rfc3339_of(micros as int),
{
    match chrono::DateTime::<chrono::Utc>::from_timestamp_micros(micros) {
        Some(d) => Some(d.to_rfc3339_opts(chrono::SecondsFormat::AutoSi, true)),
        None => None,
    }
}

/// The one-character text of a decimal digit.
fn digit_text(d: u32) -> (r: &'static str)
    requires
        d < 10,
    ensures
        r@ == seq![digit_char(d as nat)],
{
    proof {
        reveal_strlit("0");
        reveal_strlit("1");
        reveal_strlit("2");
        reveal_strlit("3");
        reveal_strlit("4");
        reveal_strlit("5");
        reveal_strlit("6");
        reveal_strlit("7");
        reveal_strlit("8");
        reveal_strlit("9");
    }
    if d == 0 {
        "0"
    } else if d == 1 {
        "1"
    } else if d == 2 {
        "2"
    } else if d == 3 {
        "3"
    } else if d == 4 {
        "4"
    } else if d == 5 {
        "5"
    } else if d == 6 {
        "6"
    } else if d == 7 {
        "7"
    } else if d == 8 {
        "8"
    } else {
        "9"
    }
}

/// Appends the decimal digits of `n` to `out`.
fn push_digits(out: &mut String, n: u32)
    ensures
        final(out)@ == old(out)@ + digits(n as nat),
    decreases n,
{
    if n >= 10 {
        push_digits(out, n / 10);
    }
    out.append(digit_text(n % 10));
    proof {
        if n >= 10 {
            assert(digits(n as nat) == digits((n / 10) as nat) + seq![digit_char((n % 10) as nat)]);
        }
    }
}

/// The decimal text of an integer, as serde_json writes a number.
pub fn decimal_text(n: i32) -> (r: String)
    ensures
        r@ == decimal(n as int),
{
    if n < 0 {
        let mut out = String::from_str("-");
        proof {
            reveal_strlit("-");
        }
        let magnitude: u32 = (0i64 - n as i64) as u32;
        push_digits(&mut out, magnitude);
        out
    } else {
        let mut out = String::new();
        push_digits(&mut out, n as u32);
        assert(out@ =~= decimal(n as int));
        out
    }
}

/// Assembles the JSON object of a task from the rendered texts of its parts.
pub fn frame_task(
    id: &str,
    title: &str,
    description: Option<&str>,
    completed: bool,
    created_at: &str,
    updated_at: &str,
) -> (r: String)
    ensures
        r@ == task_json(
            id@,
            title@,
            match description {
                Some(d) => Some(d@),
                None => None,
            },
            completed,
            created_at@,
            updated_at@,
        ),
{
    let mut out = String::from_str("{\"id\":");
    out.append(id);
    out.append(",\"title\":");
    out.append(title);
    out.append(",\"description\":");
    match description {
        Some(d) => out.append(d),
        None => out.append("null"),
    }
    out.append(",\"completed\":");
    if completed {
        out.append("true");
    } else {
        out.append("false");
    }
    out.append(",\"created_at\":\"");
    out.append(created_at);
    out.append("\",\"updated_at\":\"");
    out.append(updated_at);
    out.append("\"}");
    out
}

/// Renders a task as JSON; `None` only when chrono declines a timestamp, which
/// never happens to timestamps `in_calendar`.
pub fn encode_task(t: &Task) -> (r: Option<String>)
    ensures
        in_calendar(t.created_at as int) && in_calendar(t.updated_at as int) ==> r is Some,
        r matches Some(s) ==> s@ == task_json_of(*t),
{
    let id = decimal_text(t.id);
    let title = match json_string(t.title.as_str()) {
        Some(j) => j,
        None => return None,
    };
    let description = match &t.description {
        Some(d) => match json_string(d.as_str()) {
            Some(j) => Some(j),
            None => return None,
        },
        None => None,
    };
    let created_at = match timestamp_text(t.created_at) {
        Some(s) => s,
        None => return None,
    };
    let updated_at = match timestamp_text(t.updated_at) {
        Some(s) => s,
        None => return None,
    };
    let description_ref: Option<&str> = match &description {
        Some(j) => Some(j.as_str()),
        None => None,
    };
    Some(
        frame_task(
            id.as_str(),
            title.as_str(),
            description_ref,
            t.completed,
            created_at.as_str(),
            updated_at.as_str(),
        ),
    )
}

} // verus!
