//! The response texts of the two operations: fixed error messages, the
//! default configuration, and the success payloads, each pinned down to the
//! exact character sequence.
//!
//! Objects are written compactly with their keys in ascending order, the
//! order in which serde_json writes an object it has parsed.

use vstd::prelude::*;

use crate::text::{esc_seq, dec_seq, dec_of, append_escaped};

verus! {

/// The response sent when the home directory cannot be resolved.
pub open spec fn home_error_text() -> Seq<char> {
    "{\"message\":\"The GLMY home directory does not exist and could not be created.\",\"status\":\"error\"}"@
}

/// The response sent when the configuration file can neither be read nor
/// created.
pub open spec fn config_error_text() -> Seq<char> {
    "{\"message\":\"The GLMY configuration file does not exist and could not be created.\",\"status\":\"error\"}"@
}

/// The configuration written on first use.
pub open spec fn default_config_text() -> Seq<char> {
    "{\"paths\":{\"bookmarks\":\"<home>/bookmarks\",\"databases\":\"<home>/databases\",\"home\":\"C:\\\\Users\\\\ziegler\\\\Desktop\\\\GLMY\",\"notes\":\"<home>/notes\",\"todos\":\"<home>/todos\"},\"version\":\"0.1.0\"}"@
}

/// The successful response of the initialise operation, wrapping the
/// configuration text `canon`.
pub open spec fn init_success_text(canon: Seq<char>) -> Seq<char> {
    "{\"result\":"@ + canon + ",\"status\":\"success\"}"@
}

/// A JSON string literal holding the characters of `s`.
pub open spec fn quoted(s: Seq<char>) -> Seq<char> {
    "\""@ + esc_seq(s) + "\""@
}

/// The entry paths that a listing keeps: those the filesystem handed back as
/// usable path strings.
pub open spec fn kept(raw: Seq<Option<String>>) -> Seq<Seq<char>>
    decreases raw.len(),
{
    if raw.len() == 0 {
        Seq::<Seq<char>>::empty()
    } else {
        let rest = kept(raw.drop_last());
        match raw.last() {
            Some(s) => rest.push(s@),
            None => rest,
        }
    }
}

/// The members of a JSON array of string literals, comma separated.
pub open spec fn entries_text(es: Seq<Seq<char>>) -> Seq<char>
    decreases es.len(),
{
    if es.len() == 0 {
        Seq::<char>::empty()
    } else if es.len() == 1 {
        quoted(es[0])
    } else {
        entries_text(es.drop_last()) + ","@ + quoted(es.last())
    }
}

/// The successful response of the listing operation: every raw entry is
/// counted, only the kept ones are listed, and `total` is their number.
pub open spec fn listing_success_text(raw: Seq<Option<String>>) -> Seq<char> {
    "{\"result\":{\"count\":"@ + dec_seq(raw.len() as int)
        + ",\"entries\":["@ + entries_text(kept(raw))
        + "],\"total\":"@ + dec_seq(kept(raw).len() as int)
        + "},\"status\":\"success\"}"@
}

/// The failing response of the listing operation, carrying the underlying
/// message and the attempted path.
pub open spec fn listing_error_text(msg: Seq<char>, path: Seq<char>) -> Seq<char> {
    "{\"details\":{\"path\":"@ + quoted(path)
        + "},\"message\":"@ + quoted(msg)
        + ",\"status\":\"error\"}"@
}

/// A listing never keeps more entries than it saw.
pub proof fn lemma_kept_len(raw: Seq<Option<String>>)
    ensures
        kept(raw).len() <= raw.len(),
    decreases raw.len(),
{
    if raw.len() > 0 {
        lemma_kept_len(raw.drop_last());
    }
}

pub fn home_error_response() -> (r: String)
    ensures
        r@ == home_error_text(),
{
    String::from_str("{\"message\":\"The GLMY home directory does not exist and could not be created.\",\"status\":\"error\"}")
}

pub fn config_error_response() -> (r: String)
    ensures
        r@ == config_error_text(),
{
    String::from_str("{\"message\":\"The GLMY configuration file does not exist and could not be created.\",\"status\":\"error\"}")
}

pub fn default_config() -> (r: String)
    ensures
        r@ == default_config_text(),
{
    String::from_str("{\"paths\":{\"bookmarks\":\"<home>/bookmarks\",\"databases\":\"<home>/databases\",\"home\":\"C:\\\\Users\\\\ziegler\\\\Desktop\\\\GLMY\",\"notes\":\"<home>/notes\",\"todos\":\"<home>/todos\"},\"version\":\"0.1.0\"}")
}

pub fn init_success_response(canon: &str) -> (r: String)
    ensures
        r@ == init_success_text(canon@),
{
    String::from_str("{\"result\":").concat(canon).concat(",\"status\":\"success\"}")
}

fn append_quoted(out: &mut String, s: &str)
    ensures
        final(out)@ == old(out)@ + quoted(s@),
{
    out.append("\"");
    append_escaped(out, s);
    out.append("\"");
    proof {
        assert(out@ =~= old(out)@ + quoted(s@));
    }
}

pub fn listing_error_response(msg: &str, path: &str) -> (r: String)
    ensures
        r@ == listing_error_text(msg@, path@),
{
    let mut out = String::from_str("{\"details\":{\"path\":");
    append_quoted(&mut out, path);
    out.append("},\"message\":");
    append_quoted(&mut out, msg);
    out.append(",\"status\":\"error\"}");
    proof {
        assert(out@ =~= listing_error_text(msg@, path@));
    }
    out
}

pub fn listing_success_response(raw: &Vec<Option<String>>) -> (r: String)
    ensures
        r@ == listing_success_text(raw@),
{
    let mut entries = String::new();
    let mut total: usize = 0;
    let mut i: usize = 0;
    while i < raw.len()
        invariant
            i <= raw@.len(),
            total == kept(raw@.take(i as int)).len(),
            total <= i,
            entries@ == entries_text(kept(raw@.take(i as int))),
        decreases raw@.len() - i,
    {
        let ghost before = kept(raw@.take(i as int));
        match &raw[i] {
            Some(s) => {
                if total > 0 {
                    entries.append(",");
                }
                append_quoted(&mut entries, s.as_str());
                total = total + 1;
            },
            None => {},
        }
        proof {
            let t = raw@.take(i + 1);
            assert(t.drop_last() =~= raw@.take(i as int));
            assert(t.last() == raw@[i as int]);
            match raw@[i as int] {
                Some(s) => {
                    assert(kept(t) == before.push(s@));
                    if before.len() == 0 {
                        assert(entries@ =~= entries_text(kept(t)));
                    } else {
                        assert(kept(t).drop_last() =~= before);
                        assert(entries@ =~= entries_text(kept(t)));
                    }
                },
                None => {
                    assert(kept(t) == before);
                },
            }
        }
        i = i + 1;
    }
    proof {
        assert(raw@.take(raw@.len() as int) =~= raw@);
    }
    let count: u64 = raw.len() as u64;
    let total64: u64 = total as u64;
    let mut out = String::from_str("{\"result\":{\"count\":");
    out.append(dec_of(count).as_str());
    out.append(",\"entries\":[");
    out.append(entries.as_str());
    out.append("],\"total\":");
    out.append(dec_of(total64).as_str());
    out.append("},\"status\":\"success\"}");
    proof {
        assert(out@ =~= listing_success_text(raw@));
    }
    out
}

} // verus!
