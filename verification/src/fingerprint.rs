//! The self-test that grades what a page can tell of an automated browser.

use serde_json::Value;
use vstd::prelude::*;

use crate::json;
use crate::json::Json;
use crate::text;

verus! {

/// The expression that reads the fingerprints off a page, as the text of a JSON
/// object.
pub const SCRIPT: &'static str = "JSON.stringify({
            webdriver: navigator.webdriver === undefined ? 'undefined' : String(navigator.webdriver),
            plugins: navigator.plugins.length,
            languages: (navigator.languages || []).join(','),
            hasChrome: !!window.chrome,
            hasChromeRuntime: !!(window.chrome && window.chrome.runtime),
            headlessUA: /headless/i.test(navigator.userAgent),
            userAgent: navigator.userAgent
        })";

/// What a page gave for one property.
pub struct Reading {
    /// The property, where it is a string.
    pub text: Option<String>,
    /// The property as it is displayed.
    pub shown: String,
}

/// What a page gave for the properties that are graded.
pub struct Probe {
    pub webdriver: Reading,
    pub plugins: u64,
    pub languages: Reading,
    pub has_chrome: bool,
    pub headless_ua: bool,
}

/// A reading, by what it says.
pub struct ReadingView {
    pub text: Option<Seq<char>>,
    pub shown: Seq<char>,
}

/// A probe, by what it says.
pub struct ProbeView {
    pub webdriver: ReadingView,
    pub plugins: nat,
    pub languages: ReadingView,
    pub has_chrome: bool,
    pub headless_ua: bool,
}

impl View for Reading {
    type V = ReadingView;

    open spec fn view(&self) -> ReadingView {
        ReadingView {
            text: match self.text {
                Some(s) => Some(s@),
                None => None,
            },
            shown: self.shown@,
        }
    }
}

impl View for Probe {
    type V = ProbeView;

    open spec fn view(&self) -> ProbeView {
        ProbeView {
            webdriver: self.webdriver@,
            plugins: self.plugins as nat,
            languages: self.languages@,
            has_chrome: self.has_chrome,
            headless_ua: self.headless_ua,
        }
    }
}

/// One graded property: whether it looks like that of a browser in human hands,
/// and its line in the report.
pub struct Check {
    pub good: bool,
    pub label: Seq<char>,
}

/// A truth value in words.
pub open spec fn spelled(b: bool) -> Seq<char> {
    if b {
        "true"@
    } else {
        "false"@
    }
}

/// The graded properties, in the order of the report.
pub open spec fn checks(p: ProbeView) -> Seq<Check> {
    seq![
        Check {
            good: p.webdriver.text == Some("undefined"@),
            label: "navigator.webdriver = "@ + p.webdriver.shown,
        },
        Check {
            good: p.plugins > 0,
            label: "navigator.plugins = "@ + text::decimal(p.plugins),
        },
        Check {
            good: p.languages.text is Some && p.languages.text->0.len() > 0,
            label: "navigator.languages = "@ + p.languages.shown,
        },
        Check { good: p.has_chrome, label: "window.chrome present"@ },
        Check {
            good: !p.headless_ua,
            label: "headless in UA = "@ + spelled(p.headless_ua),
        },
    ]
}

/// How many properties look good.
pub open spec fn passed(cs: Seq<Check>) -> nat
    decreases cs.len(),
{
    if cs.len() == 0 {
        0
    } else {
        passed(cs.drop_last()) + (if cs.last().good {
            1nat
        } else {
            0nat
        })
    }
}

/// The mark before a property.
pub open spec fn mark(good: bool) -> Seq<char> {
    if good {
        "  ✓ "@
    } else {
        "  ✗ "@
    }
}

/// One line for each property.
pub open spec fn rows(cs: Seq<Check>) -> Seq<char>
    decreases cs.len(),
{
    if cs.len() == 0 {
        Seq::empty()
    } else {
        rows(cs.drop_last()) + mark(cs.last().good) + cs.last().label + seq!['\n']
    }
}

/// The report on a probe: a heading, a line for each property, and the score.
pub open spec fn graded(p: ProbeView) -> Seq<char> {
    "fingerprint check\n"@ + rows(checks(p)) + "\nscore: "@ + text::decimal(passed(checks(p)))
        + "/"@ + text::decimal(checks(p).len()) + " passed"@
}

/// A property of the object that the page gave, nothing where it gave none.
pub open spec fn property(raw: Json, key: Seq<char>) -> Option<Json> {
    let given = match raw {
        Json::Text(s) => s,
        _ => "{}"@,
    };
    match json::parsed(given) {
        Some(j) => json::member_of(j, key),
        None => None,
    }
}

/// A property as a reading. One that was not given is displayed as null.
pub open spec fn reading(j: Option<Json>) -> ReadingView {
    ReadingView {
        text: match j {
            Some(Json::Text(s)) => Some(s),
            _ => None,
        },
        shown: match j {
            Some(j) => json::displayed(j),
            None => "null"@,
        },
    }
}

/// A property that counts something. What is no count counts nothing.
pub open spec fn counted(j: Option<Json>) -> nat {
    match j {
        Some(Json::Int(n)) => if n >= 0 {
            n as nat
        } else {
            0
        },
        _ => 0,
    }
}

/// What the page gave, as a probe.
pub open spec fn probe_of(raw: Json) -> ProbeView {
    ProbeView {
        webdriver: reading(property(raw, "webdriver"@)),
        plugins: counted(property(raw, "plugins"@)),
        languages: reading(property(raw, "languages"@)),
        has_chrome: property(raw, "hasChrome"@) == Some(Json::Bool(true)),
        headless_ua: property(raw, "headlessUA"@) == Some(Json::Bool(true)),
    }
}

/// Reads one property as text and as it is displayed.
fn read_reading(v: &Option<Value>) -> (r: Reading)
    ensures
        r@ == reading(json::json_option(*v)),
{
    match v {
        Some(v) => {
            let text: Option<String> = match v.as_str() {
                Some(s) => Some(s.to_owned()),
                None => None,
            };
            Reading { text, shown: json::display(v) }
        },
        None => Reading { text: None, shown: "null".to_owned() },
    }
}

/// Reads one property as a truth value. What is none counts as false.
fn read_flag(v: &Option<Value>) -> (r: bool)
    ensures
        r == (json::json_option(*v) == Some(Json::Bool(true))),
{
    match v {
        Some(v) => match v.as_bool() {
            Some(b) => b,
            None => false,
        },
        None => false,
    }
}

/// Reads one property as a count. What is none counts as zero.
fn read_count(v: &Option<Value>) -> (r: u64)
    ensures
        r == counted(json::json_option(*v)),
{
    match v {
        Some(v) => match v.as_u64() {
            Some(n) => n,
            None => 0,
        },
        None => 0,
    }
}

/// Reads the probe off what the script gave.
pub fn read_probe(raw: &Value) -> (r: Probe)
    ensures
        r@ == probe_of(json::json(*raw)),
{
    let blob: Option<Value> = match raw.as_str() {
        Some(s) => json::parse(s),
        None => json::parse("{}"),
    };
    let (webdriver, plugins, languages, has_chrome, headless_ua) = match &blob {
        Some(v) => (
            json::member(v, "webdriver"),
            json::member(v, "plugins"),
            json::member(v, "languages"),
            json::member(v, "hasChrome"),
            json::member(v, "headlessUA"),
        ),
        None => (None, None, None, None, None),
    };
    Probe {
        webdriver: read_reading(&webdriver),
        plugins: read_count(&plugins),
        languages: read_reading(&languages),
        has_chrome: read_flag(&has_chrome),
        headless_ua: read_flag(&headless_ua),
    }
}

/// Verdicts with their lines, by what they say.
pub open spec fn labelled(v: Seq<(bool, String)>) -> Seq<Check> {
    v.map_values(|c: (bool, String)| Check { good: c.0, label: c.1@ })
}

/// A line of the report.
fn label(name: &str, value: &str) -> (r: String)
    ensures
        r@ == name@ + value@,
{
    let mut out = name.to_owned();
    out.append(value);
    out
}

/// Grades the properties of a probe.
fn grade(p: &Probe) -> (r: Vec<(bool, String)>)
    ensures
        labelled(r@) == checks(p@),
{
    let human: bool = match &p.webdriver.text {
        Some(s) => *s == "undefined".to_owned(),
        None => false,
    };
    let spoken: bool = match &p.languages.text {
        Some(s) => !s.as_str().is_empty(),
        None => false,
    };
    let mut plugins = "navigator.plugins = ".to_owned();
    text::push_decimal(&mut plugins, p.plugins);
    let mut out: Vec<(bool, String)> = Vec::new();
    out.push((human, label("navigator.webdriver = ", p.webdriver.shown.as_str())));
    out.push((p.plugins > 0, plugins));
    out.push((spoken, label("navigator.languages = ", p.languages.shown.as_str())));
    out.push((p.has_chrome, "window.chrome present".to_owned()));
    out.push(
        (!p.headless_ua, label("headless in UA = ", if p.headless_ua {
            "true"
        } else {
            "false"
        })),
    );
    assert(labelled(out@) =~= checks(p@));
    out
}

/// Grades a probe: one line for each property that a site may look at, and how
/// many of them look like those of a browser in human hands.
pub fn fingerprint_report(p: &Probe) -> (r: String)
    ensures
        r@ == graded(p@),
{
    let all = grade(p);
    let ghost cs = labelled(all@);
    let mut out = "fingerprint check\n".to_owned();
    let mut good: u64 = 0;
    let mut i: usize = 0;
    assert(out@ =~= "fingerprint check\n"@ + rows(cs.take(0)));
    while i < all.len()
        invariant
            i <= all.len(),
            cs == labelled(all@),
            good == passed(cs.take(i as int)),
            good <= i <= u64::MAX,
            out@ == "fingerprint check\n"@ + rows(cs.take(i as int)),
        decreases all.len() - i,
    {
        let ghost before = out@;
        if all[i].0 {
            out.append("  ✓ ");
        } else {
            out.append("  ✗ ");
        }
        out.append(all[i].1.as_str());
        out.push('\n');
        assert(cs.take(i + 1).drop_last() =~= cs.take(i as int));
        assert(out@ =~= before + mark(cs[i as int].good) + cs[i as int].label + seq!['\n']);
        assert(out@ =~= "fingerprint check\n"@ + rows(cs.take(i + 1)));
        if all[i].0 {
            good = good + 1;
        }
        i = i + 1;
    }
    assert(cs.take(i as int) =~= cs);
    out.append("\nscore: ");
    text::push_decimal(&mut out, good);
    out.append("/");
    text::push_decimal(&mut out, all.len() as u64);
    out.append(" passed");
    out
}

proof fn lemma_passed(cs: Seq<Check>)
    ensures
        passed(cs) <= cs.len(),
        passed(cs) == cs.len() <==> forall|i: int| 0 <= i < cs.len() ==> (#[trigger] cs[i]).good,
    decreases cs.len(),
{
    if cs.len() > 0 {
        lemma_passed(cs.drop_last());
        assert(forall|i: int| 0 <= i < cs.len() - 1 ==> cs.drop_last()[i] == #[trigger] cs[i]);
        assert(cs.last() == cs[cs.len() - 1]);
    }
}

/// Five properties are graded, at most all of them pass, and all of them pass
/// exactly if the page shows no sign of automation: no webdriver, some plugins,
/// some language, a `window.chrome`, and a user agent that is not headless.
pub proof fn full_score_exactly(p: ProbeView)
    ensures
        checks(p).len() == 5,
        passed(checks(p)) <= 5,
        passed(checks(p)) == 5 <==> p.webdriver.text == Some("undefined"@) && p.plugins > 0
            && p.languages.text is Some && p.languages.text->0.len() > 0 && p.has_chrome
            && !p.headless_ua,
{
    let cs = checks(p);
    lemma_passed(cs);
    assert(cs[0].good == (p.webdriver.text == Some("undefined"@)));
    assert(cs[1].good == (p.plugins > 0));
    assert(cs[2].good == (p.languages.text is Some && p.languages.text->0.len() > 0));
    assert(cs[3].good == p.has_chrome);
    assert(cs[4].good == !p.headless_ua);
}

proof fn lemma_rows_push(cs: Seq<Check>, c: Check)
    ensures
        rows(cs.push(c)) == rows(cs) + (mark(c.good) + c.label + seq!['\n']),
        passed(cs.push(c)) == passed(cs) + (if c.good {
            1nat
        } else {
            0nat
        }),
{
    assert(cs.push(c).drop_last() =~= cs);
    assert(rows(cs.push(c)) =~= rows(cs) + (mark(c.good) + c.label + seq!['\n']));
}

proof fn lemma_five(a: Check, b: Check, c: Check, d: Check, e: Check)
    ensures
        rows(seq![a, b, c, d, e]) == (mark(a.good) + a.label + seq!['\n']) + (mark(b.good) + b.label
            + seq!['\n']) + (mark(c.good) + c.label + seq!['\n']) + (mark(d.good) + d.label
            + seq!['\n']) + (mark(e.good) + e.label + seq!['\n']),
        passed(seq![a, b, c, d, e]) == (if a.good { 1nat } else { 0 }) + (if b.good {
            1nat
        } else {
            0
        }) + (if c.good { 1nat } else { 0 }) + (if d.good { 1nat } else { 0 }) + (if e.good {
            1nat
        } else {
            0
        }),
{
    let none = Seq::<Check>::empty();
    lemma_rows_push(none, a);
    lemma_rows_push(none.push(a), b);
    lemma_rows_push(none.push(a).push(b), c);
    lemma_rows_push(none.push(a).push(b).push(c), d);
    lemma_rows_push(none.push(a).push(b).push(c).push(d), e);
    assert(none.push(a).push(b).push(c).push(d).push(e) =~= seq![a, b, c, d, e]);
    assert(rows(none) + (mark(a.good) + a.label + seq!['\n']) =~= mark(a.good) + a.label
        + seq!['\n']);
}

/// The report word for word: a heading, then a row for each of the five
/// properties, marked by whether it looks good, and the number of those that do.
pub proof fn report_word_for_word(p: ProbeView)
    ensures
        ({
            let webdriver = p.webdriver.text == Some("undefined"@);
            let plugins = p.plugins > 0;
            let languages = p.languages.text is Some && p.languages.text->0.len() > 0;
            let score: nat = (if webdriver { 1nat } else { 0 }) + (if plugins { 1nat } else { 0 })
                + (if languages { 1nat } else { 0 }) + (if p.has_chrome { 1nat } else { 0 }) + (
            if p.headless_ua { 0nat } else { 1 });
            graded(p) == "fingerprint check\n"@ + (((if webdriver { "  ✓ "@ } else { "  ✗ "@ })
                + ("navigator.webdriver = "@ + p.webdriver.shown) + seq!['\n']) + ((if plugins {
                "  ✓ "@
            } else {
                "  ✗ "@
            }) + ("navigator.plugins = "@ + text::decimal(p.plugins)) + seq!['\n']) + ((
            if languages { "  ✓ "@ } else { "  ✗ "@ }) + ("navigator.languages = "@
                + p.languages.shown) + seq!['\n']) + ((if p.has_chrome { "  ✓ "@ } else {
                "  ✗ "@
            }) + "window.chrome present"@ + seq!['\n']) + ((if p.headless_ua { "  ✗ "@ } else {
                "  ✓ "@
            }) + ("headless in UA = "@ + (if p.headless_ua { "true"@ } else { "false"@ }))
                + seq!['\n'])) + "\nscore: "@ + text::decimal(score) + "/5 passed"@
        }),
{
    let cs = checks(p);
    lemma_five(cs[0], cs[1], cs[2], cs[3], cs[4]);
    assert(cs =~= seq![cs[0], cs[1], cs[2], cs[3], cs[4]]);
    reveal_strlit("/");
    reveal_strlit(" passed");
    reveal_strlit("/5 passed");
    reveal_strlit("0123456789");
    text::decimal_digit_by_digit(0, 5);
    let upper = "fingerprint check\n"@ + rows(cs) + "\nscore: "@ + text::decimal(passed(cs));
    assert("/"@ + text::decimal(5) + " passed"@ =~= "/5 passed"@);
    assert(graded(p) =~= upper + ("/"@ + text::decimal(5) + " passed"@));
}

/// What is graded is what the page gave: the members of the object that its text
/// parses to, none where it gave no text of an object. The webdriver looks good
/// where it is the text `undefined`, the plugins where they are a number above
/// zero, the languages where they are a text that is not empty, `window.chrome`
/// where it is true, and the user agent unless it is said to be headless. What is
/// shown of a member that is missing is null.
pub proof fn graded_as_given(raw: Json)
    ensures
        ({
            let given = if raw is Text { raw->Text_0 } else { "{}"@ };
            let none = Map::<Seq<char>, Json>::empty();
            let m = match json::parsed(given) {
                Some(Json::Object(m)) => m,
                _ => none,
            };
            let p = probe_of(raw);
            &&& (p.webdriver.text == Some("undefined"@)) == (m.contains_key("webdriver"@)
                && m["webdriver"@] == Json::Text("undefined"@))
            &&& p.webdriver.shown == (if m.contains_key("webdriver"@) {
                json::displayed(m["webdriver"@])
            } else {
                "null"@
            })
            &&& p.plugins == (if m.contains_key("plugins"@) && m["plugins"@] is Int
                && m["plugins"@]->Int_0 > 0 { m["plugins"@]->Int_0 } else { 0 })
            &&& (p.languages.text is Some && p.languages.text->0.len() > 0) == (m.contains_key(
                "languages"@,
            ) && m["languages"@] is Text && m["languages"@]->Text_0.len() > 0)
            &&& p.languages.shown == (if m.contains_key("languages"@) {
                json::displayed(m["languages"@])
            } else {
                "null"@
            })
            &&& p.has_chrome == (m.contains_key("hasChrome"@) && m["hasChrome"@] == Json::Bool(
                true,
            ))
            &&& p.headless_ua == (m.contains_key("headlessUA"@) && m["headlessUA"@] == Json::Bool(
                true,
            ))
        }),
{
}

/// A page gets the full score exactly if it gave the text of an object in which
/// webdriver is the text `undefined`, plugins a number above zero, languages a
/// text that is not empty, hasChrome true, and headlessUA anything but true. So
/// where hasChrome is false or missing, the score is below five.
pub proof fn full_score_as_given(given: Seq<char>, m: Map<Seq<char>, Json>)
    requires
        json::parsed(given) == Some(Json::Object(m)),
    ensures
        passed(checks(probe_of(Json::Text(given)))) <= 5,
        passed(checks(probe_of(Json::Text(given)))) == 5 <==> {
            &&& m.contains_key("webdriver"@) && m["webdriver"@] == Json::Text("undefined"@)
            &&& m.contains_key("plugins"@) && m["plugins"@] is Int && m["plugins"@]->Int_0 > 0
            &&& m.contains_key("languages"@) && m["languages"@] is Text
                && m["languages"@]->Text_0.len() > 0
            &&& m.contains_key("hasChrome"@) && m["hasChrome"@] == Json::Bool(true)
            &&& !(m.contains_key("headlessUA"@) && m["headlessUA"@] == Json::Bool(true))
        },
        !(m.contains_key("hasChrome"@) && m["hasChrome"@] == Json::Bool(true)) ==> {
            &&& passed(checks(probe_of(Json::Text(given)))) < 5
            &&& !checks(probe_of(Json::Text(given)))[3].good
        },
{
    graded_as_given(Json::Text(given));
    full_score_exactly(probe_of(Json::Text(given)));
}

/// A probe says what it holds, property by property.
pub proof fn probe_says_what_it_holds(p: Probe)
    ensures
        p@.webdriver.shown == p.webdriver.shown@,
        p@.webdriver.text is Some <==> p.webdriver.text is Some,
        p.webdriver.text is Some ==> p@.webdriver.text->0 == p.webdriver.text->0@,
        p@.plugins == p.plugins,
        p@.languages.shown == p.languages.shown@,
        p@.languages.text is Some <==> p.languages.text is Some,
        p.languages.text is Some ==> p@.languages.text->0 == p.languages.text->0@,
        p@.has_chrome == p.has_chrome,
        p@.headless_ua == p.headless_ua,
{
}

} // verus!
