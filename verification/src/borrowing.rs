//! Borrowing across laboratories: which items may be lent to another
//! laboratory, what a borrow request must carry, and how a partner's answer
//! is read.
use crate::ids::{parse_uuid, uuid_from_text};
use crate::text::{is_blank, str_eq, trim, trim_to_string};
use vstd::prelude::*;

verus! {

/// `s` with every trailing occurrence of `suffix` removed, as
/// `str::trim_end_matches` with a string pattern does.
pub open spec fn trim_end_text(s: Seq<char>, suffix: Seq<char>) -> Seq<char>
    decreases s.len(),
{
    if suffix.len() > 0 && s.len() >= suffix.len() && s.subrange(s.len() - suffix.len(), s.len() as int)
        == suffix {
        trim_end_text(s.subrange(0, s.len() - suffix.len()), suffix)
    } else {
        s
    }
}

fn ends_with_at(s: &str, end: usize, suffix: &str) -> (r: bool)
    requires
        end <= s@.len(),
    ensures
        r == (suffix@.len() <= end && s@.subrange(end - suffix@.len(), end as int) == suffix@),
{
    let m = suffix.unicode_len();
    if m > end {
        return false;
    }
    let start = end - m;
    let mut k: usize = 0;
    while k < m
        invariant
            m == suffix@.len(),
            start + m == end,
            end <= s@.len(),
            k <= m,
            forall|j: int| 0 <= j < k ==> s@[start + j] == suffix@[j],
        decreases m - k,
    {
        if s.get_char(start + k) != suffix.get_char(k) {
            assert(s@.subrange(start as int, end as int)[k as int] != suffix@[k as int]);
            return false;
        }
        k = k + 1;
    }
    assert(s@.subrange(start as int, end as int) =~= suffix@);
    true
}

/// A partner's API address for `path`: its configured API base URL without
/// the trailing `/api/v1`, followed by `path`.
pub fn remote_endpoint(api_base_url: &str, path: &str) -> (url: String)
    ensures
        url@ == trim_end_text(api_base_url@, "/api/v1"@) + path@,
{
    let suffix = "/api/v1";
    proof {
        reveal_strlit("/api/v1");
    }
    let m = suffix.unicode_len();
    let mut end = api_base_url.unicode_len();
    assert(api_base_url@.subrange(0, end as int) =~= api_base_url@);
    while ends_with_at(api_base_url, end, suffix)
        invariant
            end <= api_base_url@.len(),
            m == suffix@.len(),
            m > 0,
            trim_end_text(api_base_url@, suffix@) == trim_end_text(api_base_url@.subrange(0, end as int), suffix@),
        decreases end,
    {
        let ghost prefix = api_base_url@.subrange(0, end as int);
        assert(prefix.subrange(prefix.len() - m, prefix.len() as int) =~= api_base_url@.subrange(end - m, end as int));
        assert(prefix.subrange(0, prefix.len() - m) =~= api_base_url@.subrange(0, end - m));
        end = end - m;
    }
    let ghost prefix = api_base_url@.subrange(0, end as int);
    assert(!(prefix.len() >= m && prefix.subrange(prefix.len() - m, prefix.len() as int) == suffix@)) by {
        if prefix.len() >= m {
            assert(prefix.subrange(prefix.len() - m, prefix.len() as int) =~= api_base_url@.subrange(end - m, end as int));
        }
    }
    let mut url = String::from_str(api_base_url.substring_char(0, end));
    url.append(path);
    url
}

/// A partner that is switched off is not asked anything.
pub fn check_remote_enabled(is_enabled: bool) -> (r: Result<(), String>)
    ensures
        is_enabled ==> r is Ok,
        !is_enabled ==> (r matches Err(e) && e@ == "Remote laboratory is disabled"@),
{
    if !is_enabled {
        return Err(String::from_str("Remote laboratory is disabled"));
    }
    Ok(())
}

/// A borrow request must say what the item is for.
pub fn check_borrow_purpose(purpose: &str) -> (r: Result<(), String>)
    ensures
        trim(purpose@).len() > 0 ==> r is Ok,
        trim(purpose@).len() == 0 ==> (r matches Err(e) && e@ == "purpose is required"@),
{
    if is_blank(purpose) {
        return Err(String::from_str("purpose is required"));
    }
    Ok(())
}

pub open spec fn spec_check_borrowable(is_cross_lab_borrowable: bool, tracking_mode: Seq<char>, status: Seq<char>) -> Result<(), Seq<char>> {
    if !is_cross_lab_borrowable {
        Err("inventory item is not borrowable"@)
    } else if tracking_mode == "serialized"@ && status != "available"@ {
        Err("inventory item is not available"@)
    } else {
        Ok(())
    }
}

/// An item may be lent to another laboratory only where it is marked as
/// such, and a serialized one only while it is available. The amounts are
/// checked by the caller.
pub fn check_borrowable(is_cross_lab_borrowable: bool, tracking_mode: &str, status: &str) -> (r: Result<(), String>)
    ensures
        match spec_check_borrowable(is_cross_lab_borrowable, tracking_mode@, status@) {
            Ok(()) => r is Ok,
            Err(m) => r matches Err(e) && e@ == m,
        },
{
    if !is_cross_lab_borrowable {
        return Err(String::from_str("inventory item is not borrowable"));
    }
    if str_eq(tracking_mode, "serialized") && !str_eq(status, "available") {
        return Err(String::from_str("inventory item is not available"));
    }
    Ok(())
}

/// What a partner's refusal is reported as: the `error` text of its answer,
/// or a generic message where it gives none.
pub fn remote_error_message(error: Option<&str>) -> (m: String)
    ensures
        m@ == (match error {
            Some(e) => e@,
            None => "Remote request failed"@,
        }),
{
    match error {
        Some(e) => String::from_str(e),
        None => String::from_str("Remote request failed"),
    }
}

pub open spec fn spec_uuid_field(value: Option<Seq<char>>, field: Seq<char>) -> Result<u128, Seq<char>> {
    match value {
        None => Err("Remote response missing "@ + field),
        Some(v) => match uuid_from_text(v) {
            Some(id) => Ok(id),
            None => Err("Remote response has invalid "@ + field),
        },
    }
}

/// An id a partner's answer must carry as text in `field`; `value` is that
/// text, where the answer has it.
pub fn uuid_field(value: Option<&str>, field: &str) -> (r: Result<u128, String>)
    ensures
        match spec_uuid_field(
            match value {
                Some(v) => Some(v@),
                None => None,
            },
            field@,
        ) {
            Ok(id) => r == Ok::<u128, String>(id),
            Err(m) => r matches Err(e) && e@ == m,
        },
{
    match value {
        None => {
            let mut m = String::from_str("Remote response missing ");
            m.append(field);
            Err(m)
        },
        Some(v) => match parse_uuid(v) {
            Some(id) => Ok(id),
            None => {
                let mut m = String::from_str("Remote response has invalid ");
                m.append(field);
                Err(m)
            },
        },
    }
}

/// A duplicate borrow request (a unique violation, SQLSTATE 23505) is a
/// conflict with this message; any other rejected statement is unexpected.
pub fn borrow_conflict(code: Option<&str>) -> (r: Option<String>)
    ensures
        (match code {
            Some(c) => c@ == "23505"@,
            None => false,
        }) ==> (r matches Some(m) && m@ == "Borrow request already exists"@),
        !(match code {
            Some(c) => c@ == "23505"@,
            None => false,
        }) ==> r is None,
{
    let duplicate = match code {
        Some(c) => str_eq(c, "23505"),
        None => false,
    };
    if duplicate {
        Some(String::from_str("Borrow request already exists"))
    } else {
        None
    }
}

/// The note of a borrow request made through a partner: trimmed, and absent
/// where blank.
pub fn borrow_request_note(note: Option<&str>) -> (r: Option<String>)
    ensures
        match note {
            Some(n) => if trim(n@).len() > 0 {
                r matches Some(s) && s@ == trim(n@)
            } else {
                r is None
            },
            None => r is None,
        },
{
    match note {
        Some(n) => {
            let t = trim_to_string(n);
            if t.unicode_len() > 0 {
                Some(t)
            } else {
                None
            }
        },
        None => None,
    }
}

/// Who may borrow across laboratories: nothing that is not marked for it;
/// everything that is marked and available, whatever its tracking mode;
/// everything marked that is not tracked by serial number, whatever its
/// status; and a serialized item only while it is available.
pub proof fn borrowable_items_are_those_marked_and_available(
    is_cross_lab_borrowable: bool,
    tracking_mode: Seq<char>,
    status: Seq<char>,
)
    ensures
        !is_cross_lab_borrowable ==> spec_check_borrowable(is_cross_lab_borrowable, tracking_mode, status)
            == Err::<(), Seq<char>>("inventory item is not borrowable"@),
        is_cross_lab_borrowable && status == "available"@ ==> spec_check_borrowable(
            is_cross_lab_borrowable,
            tracking_mode,
            status,
        ) is Ok,
        is_cross_lab_borrowable && tracking_mode != "serialized"@ ==> spec_check_borrowable(
            is_cross_lab_borrowable,
            tracking_mode,
            status,
        ) is Ok,
        is_cross_lab_borrowable && tracking_mode == "serialized"@ && status != "available"@
            ==> spec_check_borrowable(is_cross_lab_borrowable, tracking_mode, status) == Err::<
            (),
            Seq<char>,
        >("inventory item is not available"@),
{
}

/// Trimming a suffix leaves a prefix of the text that no longer ends with
/// it, and leaves a text that does not end with it as it is.
pub proof fn trimmed_suffixes_are_gone(s: Seq<char>, suffix: Seq<char>)
    requires
        suffix.len() > 0,
    ensures
        trim_end_text(s, suffix).len() <= s.len(),
        trim_end_text(s, suffix) == s.subrange(0, trim_end_text(s, suffix).len() as int),
        !(trim_end_text(s, suffix).len() >= suffix.len() && trim_end_text(s, suffix).subrange(
            trim_end_text(s, suffix).len() - suffix.len(),
            trim_end_text(s, suffix).len() as int,
        ) == suffix),
        !(s.len() >= suffix.len() && s.subrange(s.len() - suffix.len(), s.len() as int) == suffix)
            ==> trim_end_text(s, suffix) == s,
    decreases s.len(),
{
    if s.len() >= suffix.len() && s.subrange(s.len() - suffix.len(), s.len() as int) == suffix {
        let shorter = s.subrange(0, s.len() - suffix.len());
        trimmed_suffixes_are_gone(shorter, suffix);
        let t = trim_end_text(shorter, suffix);
        assert(t =~= s.subrange(0, t.len() as int));
    } else {
        assert(s =~= s.subrange(0, s.len() as int));
    }
}

/// A partner's address for a path is its API base URL, without any
/// trailing `/api/v1`, followed by the path.
pub proof fn remote_endpoints_end_with_their_path(api_base_url: Seq<char>, path: Seq<char>)
    ensures
        ({
            let base = trim_end_text(api_base_url, "/api/v1"@);
            &&& base == api_base_url.subrange(0, base.len() as int)
            &&& !(base.len() >= 7 && base.subrange(base.len() - 7, base.len() as int) == "/api/v1"@)
            &&& (base + path).subrange(base.len() as int, (base + path).len() as int) == path
        }),
{
    reveal_strlit("/api/v1");
    trimmed_suffixes_are_gone(api_base_url, "/api/v1"@);
    let base = trim_end_text(api_base_url, "/api/v1"@);
    assert((base + path).subrange(base.len() as int, (base + path).len() as int) =~= path);
}

/// An id in a partner's answer is read as it spells; a missing one and one
/// that is no UUID are told apart by their messages.
pub proof fn answer_ids_are_read_as_they_spell(value: Option<Seq<char>>, field: Seq<char>)
    ensures
        spec_uuid_field(value, field) is Ok <==> (value is Some && uuid_from_text(value->Some_0) is Some),
        spec_uuid_field(value, field) matches Ok(id) ==> uuid_from_text(value->Some_0) == Some(id),
        value is None ==> spec_uuid_field(value, field) == Err::<u128, Seq<char>>(
            "Remote response missing "@ + field,
        ),
{
}

} // verus!
