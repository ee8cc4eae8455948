//! The session of a page as a file: its cookies and its local storage.

use serde_json::Value;
use vstd::prelude::*;

use crate::json;
use crate::json::Json;

verus! {

/// What is saved of a session. A page whose local storage cannot be read is
/// saved with an empty one.
pub open spec fn session(cookies: Json, local: Option<Json>) -> Json {
    Json::Object(
        Map::<Seq<char>, Json>::empty().insert("cookies"@, cookies).insert(
            "localStorage"@,
            kept(local),
        ),
    )
}

/// The bytes of a session's file. What cannot be written leaves it empty.
pub open spec fn session_bytes(cookies: Json, local: Option<Json>) -> Seq<u8> {
    match json::written_pretty(session(cookies, local)) {
        Some(b) => b,
        None => Seq::empty(),
    }
}

/// How many cookies there are. What is no list of cookies has none.
pub open spec fn cookie_count(cookies: Json) -> nat {
    match cookies {
        Json::Array(s) => s.len(),
        _ => 0,
    }
}

/// What a session's file restores.
pub struct Restored {
    pub cookies: Option<Value>,
    pub local: Option<Value>,
}

/// Counts the cookies.
pub fn count_cookies(cookies: &Value) -> (r: usize)
    ensures
        r == cookie_count(json::json(*cookies)),
{
    match cookies.as_array() {
        Some(v) => v.len(),
        None => 0,
    }
}

proof fn lemma_keys_differ()
    ensures
        "cookies"@ != "localStorage"@,
{
    reveal_strlit("cookies");
    reveal_strlit("localStorage");
    assert("cookies"@.len() == 7);
}

/// Writes the file of a session. A session whose fractions read back, and that
/// is not nested deeper than a file is followed, is restored from the file as it
/// was saved.
pub fn save_session(cookies: Value, local: Option<Value>) -> (r: Vec<u8>)
    ensures
        r@ == session_bytes(json::json(cookies), json::json_option(local)),
        plain_session(json::json(cookies), json::json_option(local)) ==> restores(
            r@,
            json::json(cookies),
            json::json_option(local),
        ),
{
    let kept: Value = match local {
        Some(v) => v,
        None => {
            let nothing: Vec<(String, Value)> = Vec::new();
            json::object(nothing)
        },
    };
    let mut members: Vec<(String, Value)> = Vec::new();
    members.push(("cookies".to_owned(), cookies));
    members.push(("localStorage".to_owned(), kept));
    proof {
        lemma_keys_differ();
        let m = members@;
        assert(m.drop_last().drop_last() =~= Seq::<(String, Value)>::empty());
        assert(m.drop_last().last() == m[0]);
        reveal_with_fuel(json::gathered, 3);
        assert(Json::Object(json::gathered(m)) == session(json::json(cookies), json::json_option(local)));
    }
    let blob: Value = json::object(members);
    match json::write_pretty(&blob) {
        Some(b) => {
            proof {
                if plain_session(json::json(cookies), json::json_option(local)) {
                    restores_what_it_reads_as(json::json(cookies), json::json_option(local), b@);
                }
            }
            b
        },
        None => Vec::new(),
    }
}

/// What bytes restore, `Err` with a message where they are no JSON.
pub open spec fn restored(bytes: Seq<u8>) -> Result<(Option<Json>, Option<Json>), Seq<char>> {
    match json::parsed_bytes(bytes) {
        Ok(j) => Ok((json::member_of(j, "cookies"@), json::member_of(j, "localStorage"@))),
        Err(e) => Err(e),
    }
}

/// Whether bytes give back a session: its cookies and its local storage.
pub open spec fn restores(bytes: Seq<u8>, cookies: Json, local: Option<Json>) -> bool {
    restored(bytes) == Ok::<(Option<Json>, Option<Json>), Seq<char>>(
        (Some(cookies), Some(kept(local))),
    )
}

/// Reads the file of a session.
pub fn load_session(bytes: &Vec<u8>) -> (r: Result<Restored, String>)
    ensures
        match r {
            Ok(s) => restored(bytes@) == Ok::<(Option<Json>, Option<Json>), Seq<char>>(
                (json::json_option(s.cookies), json::json_option(s.local)),
            ),
            Err(e) => restored(bytes@) == Err::<(Option<Json>, Option<Json>), Seq<char>>(e@),
        },
{
    match json::parse_bytes(bytes) {
        Ok(blob) => Ok(
            Restored {
                cookies: json::member(&blob, "cookies"),
                local: json::member(&blob, "localStorage"),
            },
        ),
        Err(e) => Err(e),
    }
}

/// What a session's file gives back of its local storage: an empty one where
/// there was none.
pub open spec fn kept(local: Option<Json>) -> Json {
    match local {
        Some(j) => j,
        None => Json::Object(Map::empty()),
    }
}

/// Whether the fractions in a session read back and it nests no deeper than a
/// file is followed, one level being the file's own.
pub open spec fn plain_session(cookies: Json, local: Option<Json>) -> bool {
    json::plain(cookies, 126) && json::plain(kept(local), 126)
}

/// A file that reads as a session restores it: the cookies as they were, and the
/// local storage, empty where there was none.
pub proof fn restores_what_it_reads_as(cookies: Json, local: Option<Json>, bytes: Seq<u8>)
    requires
        json::reads_as(bytes, session(cookies, local)),
    ensures
        restores(bytes, cookies, local),
{
    lemma_keys_differ();
}

/// What is written of a session is one object with two members, the cookies and
/// the local storage, an empty object where the latter is out of reach. Where it
/// cannot be written the file is empty.
pub proof fn session_is_written_whole(cookies: Json, local: Option<Json>)
    ensures
        ({
            let rest = if local is Some { local->0 } else { Json::Object(Map::empty()) };
            let whole = Json::Object(map!["cookies"@ => cookies, "localStorage"@ => rest]);
            session_bytes(cookies, local) == if json::written_pretty(whole) is Some {
                json::written_pretty(whole)->0
            } else {
                Seq::empty()
            }
        }),
{
    let rest = kept(local);
    assert(map!["cookies"@ => cookies, "localStorage"@ => rest] =~= Map::<
        Seq<char>,
        Json,
    >::empty().insert("cookies"@, cookies).insert("localStorage"@, rest));
}

/// What a file restores is what its object has under the two names, each as far as
/// it is there. A file that parses to anything else restores nothing, and one that
/// does not parse gives the message.
pub proof fn session_is_read_by_name(
    bytes: Seq<u8>,
    m: Map<Seq<char>, Json>,
    other: Json,
    message: Seq<char>,
)
    ensures
        json::parsed_bytes(bytes) == Ok::<Json, Seq<char>>(Json::Object(m)) ==> restored(bytes)
            == Ok::<(Option<Json>, Option<Json>), Seq<char>>(
            (
                if m.contains_key("cookies"@) { Some(m["cookies"@]) } else { None },
                if m.contains_key("localStorage"@) { Some(m["localStorage"@]) } else { None },
            ),
        ),
        json::parsed_bytes(bytes) == Ok::<Json, Seq<char>>(other) && !(other is Object)
            ==> restored(bytes) == Ok::<(Option<Json>, Option<Json>), Seq<char>>((None, None)),
        json::parsed_bytes(bytes) == Err::<Json, Seq<char>>(message) ==> restored(bytes) == Err::<
            (Option<Json>, Option<Json>),
            Seq<char>,
        >(message),
{
}

/// The cookies that are counted are the elements of a list, and of anything else
/// there are none.
pub proof fn cookies_are_counted(cookies: Seq<Json>, other: Json)
    ensures
        cookie_count(Json::Array(cookies)) == cookies.len(),
        !(other is Array) ==> cookie_count(other) == 0,
{
}

} // verus!
