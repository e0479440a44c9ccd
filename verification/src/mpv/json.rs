//! JSON values as the player sends and takes them.

use vstd::prelude::*;

use crate::mpv::text::one_line;

verus! {

/// Whether a character is white space between the tokens of a JSON document.
pub open spec fn is_space(c: char) -> bool {
    c == ' ' || c == '\t' || c == '\n' || c == '\r'
}

/// A text without the white space before and after it.
pub open spec fn trimmed(text: Seq<char>) -> Seq<char>
    decreases text.len(),
{
    if text.len() == 0 {
        text
    } else if is_space(text[0]) {
        trimmed(text.drop_first())
    } else if is_space(text.last()) {
        trimmed(text.drop_last())
    } else {
        text
    }
}

/// Whether a text is `true` or `false`.
pub open spec fn is_boolean(text: Seq<char>) -> bool {
    text == "true"@ || text == "false"@
}

/// The JSON document that a text is, written without white space: `None` where it is
/// none.
pub uninterp spec fn compact_json(text: Seq<char>) -> Option<Seq<char>>;

/// Whether a text is a JSON document.
pub open spec fn is_document(text: Seq<char>) -> bool {
    compact_json(text) is Some || text == "null"@ || is_boolean(text)
}

/// The text that a string holds, if there is one.
pub open spec fn text_of(string: Option<String>) -> Option<Seq<char>> {
    match string {
        Some(string) => Some(string@),
        None => None,
    }
}

/// `serde_json::from_str` into a `serde_json::Value`, handed out as the text that the
/// value displays as, which is its compact form. That form is a function of the text
/// alone. It is a JSON document again and a single line, and it is `true` or `false`
/// exactly where the text is that, but for white space around it.
#[verifier::external_body]
fn json_compact(text: &str) -> (r: Option<String>)
    ensures
        text_of(r) == compact_json(text@),
        r matches Some(compact) ==> compact_json(compact@) is Some && one_line(compact@),
        is_boolean(trimmed(text@)) ==> text_of(r) == Some(trimmed(text@)),
        r matches Some(compact) ==> (is_boolean(compact@) ==> compact@ == trimmed(text@)),
{
    match serde_json::from_str::<serde_json::Value>(text) {
        Ok(value) => Some(value.to_string()),
        Err(_) => None,
    }
}

/// A JSON value. The view is its text, in compact form.
#[derive(Debug, PartialEq, Eq)]
pub struct Json {
    text: String,
}

impl View for Json {
    type V = Seq<char>;

    closed spec fn view(&self) -> Seq<char> {
        self.text@
    }
}

impl Clone for Json {
    fn clone(&self) -> (r: Json)
        ensures
            r == *self,
    {
        proof {
            use_type_invariant(self);
        }
        Json { text: self.text.clone() }
    }
}

impl Json {
    /// The text is a JSON document, and a single line.
    #[verifier::type_invariant]
    pub closed spec fn wf(self) -> bool {
        is_document(self.text@) && one_line(self.text@)
    }

    /// The text of a value is a JSON document and holds no line feed.
    pub proof fn lemma_document(self)
        requires
            self.wf(),
        ensures
            is_document(self@),
            one_line(self@),
    {
    }

    /// The value that a JSON document stands for, or `None` if the text is no JSON
    /// document.
    pub fn from_text(text: String) -> (r: Option<Json>)
        ensures
            r is Some <==> compact_json(text@) is Some,
            r matches Some(json) ==> json.wf() && Some(json@) == compact_json(text@),
            is_boolean(trimmed(text@)) ==> r is Some && r->0@ == trimmed(text@),
            r is Some && is_boolean(r->0@) ==> r->0@ == trimmed(text@),
    {
        match json_compact(text.as_str()) {
            Some(text) => Some(Json { text }),
            None => None,
        }
    }

    /// The value `null`.
    pub fn null() -> (r: Json)
        ensures
            r.wf(),
            r@ == "null"@,
    {
        proof {
            reveal_strlit("null");
        }
        Json { text: "null".to_owned() }
    }

    /// The value `true` or `false`.
    pub fn boolean(value: bool) -> (r: Json)
        ensures
            r.wf(),
            r@ == if value { "true"@ } else { "false"@ },
    {
        proof {
            reveal_strlit("true");
            reveal_strlit("false");
        }
        if value {
            Json { text: "true".to_owned() }
        } else {
            Json { text: "false".to_owned() }
        }
    }

    /// The truth value that this is, if it is one.
    pub fn as_bool(&self) -> (r: Option<bool>)
        ensures
            r == Some(true) <==> self@ == "true"@,
            r == Some(false) <==> self@ == "false"@,
    {
        proof {
            reveal_strlit("true");
            reveal_strlit("false");
            assert("true"@.len() != "false"@.len());
        }
        if self.text == "true".to_owned() {
            Some(true)
        } else if self.text == "false".to_owned() {
            Some(false)
        } else {
            None
        }
    }

    /// The text of the value.
    pub fn as_str(&self) -> (r: &str)
        ensures
            r@ == self@,
            self.wf(),
    {
        proof {
            use_type_invariant(self);
        }
        self.text.as_str()
    }
}

/// White space around a text does not matter, and a text that begins and ends with
/// something else is left as it is.
pub proof fn law_trimmed(text: Seq<char>, space: char)
    requires
        is_space(space),
    ensures
        trimmed(seq![space] + text) == trimmed(text),
        trimmed(text.push(space)) == trimmed(text),
        text.len() > 0 && !is_space(text[0]) && !is_space(text.last()) ==> trimmed(text) == text,
        is_space(' ') && is_space('\t') && is_space('\n') && is_space('\r'),
    decreases text.len(),
{
    assert((seq![space] + text).drop_first() =~= text);
    let longer = text.push(space);
    if text.len() > 0 && is_space(text[0]) {
        law_trimmed(text.drop_first(), space);
        assert(longer.drop_first() =~= text.drop_first().push(space));
    } else if text.len() == 0 {
        assert(longer.drop_first() =~= text);
    } else {
        assert(longer.drop_last() =~= text);
    }
}

/// A truth value is read back from the value that it is made into, and from its text with
/// white space around it; nothing else is a truth value.
pub proof fn law_truth_values_are_read_back(
    value: bool,
    made: Json,
    back: Option<bool>,
    null: Json,
    none: Option<bool>,
    text: String,
    json: Option<Json>,
    read: Option<bool>,
)
    requires
        call_ensures(Json::boolean, (value,), made),
        call_ensures(Json::as_bool, (&made,), back),
        call_ensures(Json::null, (), null),
        call_ensures(Json::as_bool, (&null,), none),
        call_ensures(Json::from_text, (text,), json),
        json matches Some(json) ==> call_ensures(Json::as_bool, (&json,), read),
    ensures
        back == Some(value),
        none is None,
        trimmed(text@) == "true"@ ==> json is Some && read == Some(true),
        trimmed(text@) == "false"@ ==> json is Some && read == Some(false),
        json is Some && trimmed(text@) != "true"@ && trimmed(text@) != "false"@ ==> read is None,
{
    reveal_strlit("true");
    reveal_strlit("false");
    reveal_strlit("null");
    assert("null"@[0] != "true"@[0]);
    assert("null"@.len() != "false"@.len());
    assert("true"@.len() != "false"@.len());
    assert(none == Some(true) || none == Some(false) || none is None);
    assert(read == Some(true) || read == Some(false) || read is None);
}

/// The text of a value is the compact form of the document that it was read from.
pub proof fn law_text_of_a_value(text: String, json: Option<Json>, r: &str)
    requires
        call_ensures(Json::from_text, (text,), json),
        json matches Some(json) ==> call_ensures(Json::as_str, (&json,), r),
    ensures
        json is Some <==> compact_json(text@) is Some,
        json is Some ==> Some(r@) == compact_json(text@) && one_line(r@) && is_document(r@),
{
}

} // verus!
