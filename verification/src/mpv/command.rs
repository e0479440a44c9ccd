//! The commands that a player takes.

use vstd::prelude::*;

use crate::mpv::json::{is_document, Json};
use crate::mpv::text::{decimal, escaped, escaped_text, json_quote, law_quoted_is_one_line, lemma_decimal_one_line,
    lemma_number_at_end, lemma_number_at_front, lemma_one_line_concat, lemma_string_at_front, one_line,
    push_decimal, quoted};

verus! {

/// What the position of a seek is counted from, and in what.
#[derive(Clone, Copy, Debug, PartialEq, Eq, Structural)]
pub enum SeekOptions {
    Relative,
    Absolute,
    RelativePercent,
    AbsolutePercent,
}

impl SeekOptions {
    /// The player's name for it.
    pub open spec fn spec_name(self) -> Seq<char> {
        match self {
            SeekOptions::Relative => "relative"@,
            SeekOptions::Absolute => "absolute"@,
            SeekOptions::RelativePercent => "relative-percent"@,
            SeekOptions::AbsolutePercent => "absolute-percent"@,
        }
    }

    /// The player's name for it.
    pub fn name(&self) -> (r: &'static str)
        ensures
            r@ == self.spec_name(),
    {
        match self {
            SeekOptions::Relative => "relative",
            SeekOptions::Absolute => "absolute",
            SeekOptions::RelativePercent => "relative-percent",
            SeekOptions::AbsolutePercent => "absolute-percent",
        }
    }
}

/// What becomes of what is being played when a file is loaded.
#[derive(Clone, Copy, Debug, PartialEq, Eq, Structural)]
pub enum LoadFileOptions {
    /// The file takes its place.
    Replace,
}

impl LoadFileOptions {
    /// The player's name for it.
    pub open spec fn spec_name(self) -> Seq<char> {
        "replace"@
    }

    /// The player's name for it.
    pub fn name(&self) -> (r: &'static str)
        ensures
            r@ == self.spec_name(),
    {
        "replace"
    }
}

/// A command to a player.
#[derive(Debug, PartialEq, Eq)]
pub enum Command {
    /// Play from this position, a JSON number.
    Seek(Json, SeekOptions),
    /// Report each change of a property, under this number.
    Observe(i64, &'static str),
    /// Answer with the value of a property.
    GetProperty(&'static str),
    /// Change the value of a property.
    SetProperty(&'static str, Json),
    /// Play this file.
    LoadFile(String, LoadFileOptions),
}

/// A command, with the number that its answer will carry.
#[derive(Debug, PartialEq, Eq)]
pub struct TaggedCommand {
    pub command: Command,
    pub request_id: i64,
}

impl Clone for Command {
    fn clone(&self) -> (r: Command)
        ensures
            r == *self,
    {
        match self {
            Command::Seek(time, options) => Command::Seek(time.clone(), *options),
            Command::Observe(id, property) => Command::Observe(*id, *property),
            Command::GetProperty(property) => Command::GetProperty(*property),
            Command::SetProperty(property, value) => Command::SetProperty(*property, value.clone()),
            Command::LoadFile(name, options) => Command::LoadFile(name.clone(), *options),
        }
    }
}

impl Clone for TaggedCommand {
    fn clone(&self) -> (r: TaggedCommand)
        ensures
            r == *self,
    {
        TaggedCommand { command: self.command.clone(), request_id: self.request_id }
    }
}

/// Texts one after the other, with a comma between each two.
pub open spec fn comma_separated(parts: Seq<Seq<char>>) -> Seq<char>
    decreases parts.len(),
{
    if parts.len() == 0 {
        Seq::empty()
    } else if parts.len() == 1 {
        parts[0]
    } else {
        comma_separated(parts.drop_last()) + seq![','] + parts.last()
    }
}

/// Whether a text is a JSON value: a document, a string or a whole number.
pub open spec fn is_value(text: Seq<char>) -> bool {
    ||| is_document(text)
    ||| exists|s: Seq<char>| text == #[trigger] quoted(s)
    ||| exists|n: int| text == #[trigger] decimal(n)
}

/// The JSON list of these values.
pub open spec fn list_text(values: Seq<Seq<char>>) -> Seq<char> {
    seq!['['] + comma_separated(values) + seq![']']
}

/// A member of a JSON object.
pub open spec fn member_text(key: Seq<char>, value: Seq<char>) -> Seq<char> {
    quoted(key) + seq![':'] + value
}

/// The JSON object with these keys and values.
pub open spec fn object_text(members: Seq<(Seq<char>, Seq<char>)>) -> Seq<char> {
    seq!['{'] + comma_separated(
        members.map_values(|m: (Seq<char>, Seq<char>)| member_text(m.0, m.1)),
    ) + seq!['}']
}

/// The texts that strings hold.
pub open spec fn texts(strings: Seq<String>) -> Seq<Seq<char>> {
    strings.map_values(|s: String| s@)
}

impl Command {
    /// The documents in it are valid.
    pub open spec fn wf(self) -> bool {
        match self {
            Command::Seek(time, _) => time.wf(),
            Command::SetProperty(_, value) => value.wf(),
            _ => true,
        }
    }

    /// The name and the arguments of the command, each as JSON text.
    pub open spec fn spec_arguments(self) -> Seq<Seq<char>> {
        match self {
            Command::Seek(time, options) => seq![
                quoted("seek"@),
                time@,
                quoted(options.spec_name()),
            ],
            Command::Observe(id, property) => seq![
                quoted("observe_property"@),
                decimal(id as int),
                quoted(property@),
            ],
            Command::GetProperty(property) => seq![quoted("get_property"@), quoted(property@)],
            Command::SetProperty(property, value) => seq![
                quoted("set_property"@),
                quoted(property@),
                value@,
            ],
            Command::LoadFile(name, options) => seq![
                quoted("loadfile"@),
                quoted(name@),
                quoted(options.spec_name()),
            ],
        }
    }

    /// The name and the arguments of the command, each as JSON text.
    pub fn arguments(&self) -> (r: Vec<String>)
        ensures
            texts(r@) == self.spec_arguments(),
            self.wf(),
    {
        let mut parts: Vec<String> = Vec::new();
        match self {
            Command::Seek(time, options) => {
                parts.push(json_quote("seek"));
                parts.push(time.as_str().to_owned());
                parts.push(json_quote(options.name()));
            },
            Command::Observe(id, property) => {
                let mut number: String = String::new();
                push_decimal(&mut number, *id);
                assert(number@ =~= decimal(*id as int));
                parts.push(json_quote("observe_property"));
                parts.push(number);
                parts.push(json_quote(*property));
            },
            Command::GetProperty(property) => {
                parts.push(json_quote("get_property"));
                parts.push(json_quote(*property));
            },
            Command::SetProperty(property, value) => {
                parts.push(json_quote("set_property"));
                parts.push(json_quote(*property));
                parts.push(value.as_str().to_owned());
            },
            Command::LoadFile(name, options) => {
                parts.push(json_quote("loadfile"));
                parts.push(json_quote(name.as_str()));
                parts.push(json_quote(options.name()));
            },
        }
        assert(texts(parts@) =~= self.spec_arguments());
        parts
    }
}

/// Appends texts one after the other to `text`, with a comma between each two.
fn push_comma_separated(text: &mut String, parts: &Vec<String>)
    ensures
        final(text)@ == old(text)@ + comma_separated(texts(parts@)),
{
    let mut i: usize = 0;
    proof {
        reveal_strlit(",");
    }
    assert(text@ =~= old(text)@ + comma_separated(texts(parts@).take(0)));
    while i < parts.len()
        invariant
            i <= parts.len(),
            ","@ == seq![','],
            text@ == old(text)@ + comma_separated(texts(parts@).take(i as int)),
        decreases parts.len() - i,
    {
        let ghost before = texts(parts@).take(i as int);
        let ghost after = texts(parts@).take(i + 1);
        assert(after.drop_last() =~= before);
        assert(after.last() == parts@[i as int]@);
        if i > 0 {
            text.append(",");
        }
        text.append(parts[i].as_str());
        assert(text@ =~= old(text)@ + comma_separated(after));
        i = i + 1;
    }
    assert(texts(parts@).take(i as int) =~= texts(parts@));
}

impl TaggedCommand {
    /// The command as a JSON object without spaces: the list of the command's name
    /// and arguments, and then its number.
    pub open spec fn line(self) -> Seq<char> {
        "{\"command\":["@ + comma_separated(self.command.spec_arguments()) + "],\"request_id\":"@
            + decimal(self.request_id as int) + "}"@
    }

    /// Whether that is a JSON object with two members: `command`, a list of JSON
    /// values, and `request_id`, the number.
    pub open spec fn is_object(self) -> bool {
        let arguments = self.command.spec_arguments();
        &&& self.line() == object_text(
            seq![
                ("command"@, list_text(arguments)),
                ("request_id"@, decimal(self.request_id as int)),
            ],
        )
        &&& forall|i: int| 0 <= i < arguments.len() ==> is_value(#[trigger] arguments[i])
    }

    /// The command as a JSON object without spaces, on a single line.
    pub fn to_line(&self) -> (r: String)
        ensures
            r@ == self.line(),
            one_line(r@),
            self.is_object(),
    {
        let mut text: String = "{\"command\":[".to_owned();
        push_comma_separated(&mut text, &self.command.arguments());
        text.append("],\"request_id\":");
        push_decimal(&mut text, self.request_id);
        text.append("}");
        proof {
            law_command_is_one_line(*self);
            law_command_is_an_object(*self);
        }
        text
    }
}

/// Single lines with commas between them are a single line.
proof fn lemma_comma_separated_one_line(parts: Seq<Seq<char>>)
    requires
        forall|i: int| 0 <= i < parts.len() ==> one_line(#[trigger] parts[i]),
    ensures
        one_line(comma_separated(parts)),
    decreases parts.len(),
{
    if parts.len() > 1 {
        lemma_comma_separated_one_line(parts.drop_last());
        lemma_one_line_concat(comma_separated(parts.drop_last()), seq![',']);
        lemma_one_line_concat(comma_separated(parts.drop_last()) + seq![','], parts.last());
    }
}

/// A command takes up a single line, whatever its arguments are.
pub proof fn law_command_is_one_line(item: TaggedCommand)
    requires
        item.command.wf(),
    ensures
        one_line(item.line()),
{
    let parts = item.command.spec_arguments();
    assert forall|i: int| 0 <= i < parts.len() implies one_line(#[trigger] parts[i]) by {
        match item.command {
            Command::Seek(time, options) => {
                time.lemma_document();
                law_quoted_is_one_line("seek"@);
                law_quoted_is_one_line(options.spec_name());
            },
            Command::Observe(id, property) => {
                lemma_decimal_one_line(id as int);
                law_quoted_is_one_line("observe_property"@);
                law_quoted_is_one_line(property@);
            },
            Command::GetProperty(property) => {
                law_quoted_is_one_line("get_property"@);
                law_quoted_is_one_line(property@);
            },
            Command::SetProperty(property, value) => {
                value.lemma_document();
                law_quoted_is_one_line("set_property"@);
                law_quoted_is_one_line(property@);
            },
            Command::LoadFile(name, options) => {
                law_quoted_is_one_line("loadfile"@);
                law_quoted_is_one_line(name@);
                law_quoted_is_one_line(options.spec_name());
            },
        }
    }
    lemma_comma_separated_one_line(parts);
    lemma_decimal_one_line(item.request_id as int);
    reveal_strlit("{\"command\":[");
    reveal_strlit("],\"request_id\":");
    reveal_strlit("}");
    let a = "{\"command\":["@;
    let b = a + comma_separated(parts);
    let c = b + "],\"request_id\":"@;
    let d = c + decimal(item.request_id as int);
    lemma_one_line_concat(a, comma_separated(parts));
    lemma_one_line_concat(b, "],\"request_id\":"@);
    lemma_one_line_concat(c, decimal(item.request_id as int));
    lemma_one_line_concat(d, "}"@);
}

/// A text in which nothing has to be escaped stands for itself.
proof fn lemma_nothing_escaped(text: Seq<char>)
    requires
        forall|i: int| 0 <= i < text.len() ==> escaped(#[trigger] text[i]) == seq![text[i]],
    ensures
        escaped_text(text) == text,
    decreases text.len(),
{
    if text.len() > 0 {
        let start = text.drop_last();
        assert forall|i: int| 0 <= i < start.len() implies escaped(#[trigger] start[i])
            == seq![start[i]] by {
            assert(start[i] == text[i]);
        }
        lemma_nothing_escaped(start);
        assert(text[text.len() - 1] == text.last());
        assert(escaped_text(text) =~= text);
    }
}

/// A command is a JSON object with two members: `command`, the list of the command's
/// name and arguments, each of which is a JSON value, and `request_id`, its number.
pub proof fn law_command_is_an_object(item: TaggedCommand)
    requires
        item.command.wf(),
    ensures
        item.is_object(),
{
    let arguments = item.command.spec_arguments();
    assert forall|i: int| 0 <= i < arguments.len() implies is_value(#[trigger] arguments[i]) by {
        match item.command {
            Command::Seek(time, _) => {
                time.lemma_document();
            },
            Command::SetProperty(_, value) => {
                value.lemma_document();
            },
            _ => {},
        }
    }

    reveal_strlit("command");
    reveal_strlit("request_id");
    lemma_nothing_escaped("command"@);
    lemma_nothing_escaped("request_id"@);
    let id = decimal(item.request_id as int);
    let members = seq![("command"@, list_text(arguments)), ("request_id"@, id)];
    let parts = members.map_values(|m: (Seq<char>, Seq<char>)| member_text(m.0, m.1));
    assert(parts.drop_last() =~= seq![parts[0]]);
    assert(comma_separated(parts) == parts[0] + seq![','] + parts[1]) by {
        reveal_with_fuel(comma_separated, 2);
    }
    reveal_strlit("{\"command\":[");
    reveal_strlit("],\"request_id\":");
    reveal_strlit("}");
    assert(item.line() =~= object_text(members));
}

/// Where two texts have the same beginning, what follows it is the same.
proof fn lemma_same_after(start: Seq<char>, a: Seq<char>, b: Seq<char>)
    requires
        start + a == start + b,
    ensures
        a == b,
{
    assert(a =~= (start + a).skip(start.len() as int));
    assert(b =~= (start + b).skip(start.len() as int));
}

/// Where two texts have the same end, what stands before it is the same.
proof fn lemma_same_before(a: Seq<char>, b: Seq<char>, end: Seq<char>)
    requires
        a + end == b + end,
    ensures
        a == b,
{
    assert((a + end).len() == a.len() + end.len());
    assert((b + end).len() == b.len() + end.len());
    assert(a =~= (a + end).take(a.len() as int));
    assert(b =~= (b + end).take(b.len() as int));
}

/// The name of what a seek is counted from, at the end of a text, can be told from what
/// stands before it.
proof fn lemma_seek_options_at_end(a: Seq<char>, o: SeekOptions, b: Seq<char>, p: SeekOptions)
    requires
        a + seq![','] + quoted(o.spec_name()) == b + seq![','] + quoted(p.spec_name()),
    ensures
        a == b,
        o == p,
{
    reveal_strlit("relative");
    reveal_strlit("absolute");
    reveal_strlit("relative-percent");
    reveal_strlit("absolute-percent");
    lemma_nothing_escaped(o.spec_name());
    lemma_nothing_escaped(p.spec_name());
    let (x, y) = (seq![','] + quoted(o.spec_name()), seq![','] + quoted(p.spec_name()));
    let whole = a + x;
    assert(whole =~= a + seq![','] + quoted(o.spec_name()));
    assert(whole =~= b + y);
    let n = whole.len() as int;
    assert(n == a.len() + x.len() && n == b.len() + y.len());
    assert forall|i: int| 0 < i <= 10 implies whole[n - i] == #[trigger] x[x.len() - i] && whole[n
        - i] == y[y.len() - i] by {}
    assert(x[x.len() - 2] == y[y.len() - 2]);
    assert(x[x.len() - 3] == y[y.len() - 3]);
    if o != p && x[x.len() - 2] == 't' {
        assert(whole[n - 11] == x[x.len() - 11] && whole[n - 11] == y[y.len() - 11]);
    }
    assert(o == p);
    lemma_same_before(a, b, x);
}

impl Command {
    /// Whether two commands are the same: texts stand for the documents and strings in
    /// them.
    pub open spec fn same(self, other: Command) -> bool {
        match (self, other) {
            (Command::Seek(a, o), Command::Seek(b, p)) => a@ == b@ && o == p,
            (Command::Observe(n, a), Command::Observe(m, b)) => n == m && a@ == b@,
            (Command::GetProperty(a), Command::GetProperty(b)) => a@ == b@,
            (Command::SetProperty(a, v), Command::SetProperty(b, w)) => a@ == b@ && v@ == w@,
            (Command::LoadFile(a, o), Command::LoadFile(b, p)) => a@ == b@ && o == p,
            _ => false,
        }
    }

    /// The name of the command.
    pub open spec fn spec_name(self) -> Seq<char> {
        match self {
            Command::Seek(..) => "seek"@,
            Command::Observe(..) => "observe_property"@,
            Command::GetProperty(_) => "get_property"@,
            Command::SetProperty(..) => "set_property"@,
            Command::LoadFile(..) => "loadfile"@,
        }
    }

    /// The arguments of the command, with a comma before each.
    spec fn tail(self) -> Seq<char> {
        match self {
            Command::Seek(time, options) => seq![','] + (time@ + seq![','] + quoted(
                options.spec_name(),
            )),
            Command::Observe(id, property) => seq![','] + (decimal(id as int) + seq![','] + quoted(
                property@,
            )),
            Command::GetProperty(property) => seq![','] + quoted(property@),
            Command::SetProperty(property, value) => seq![','] + (quoted(property@) + (seq![',']
                + value@)),
            Command::LoadFile(name, options) => seq![','] + (quoted(name@) + (seq![','] + quoted(
                options.spec_name(),
            ))),
        }
    }

    /// The name and the arguments of a command, with commas between them, are its name and
    /// then its arguments, with a comma before each.
    proof fn lemma_tail(self)
        ensures
            comma_separated(self.spec_arguments()) == quoted(self.spec_name()) + self.tail(),
    {
        let arguments = self.spec_arguments();
        reveal_with_fuel(comma_separated, 3);
        assert(arguments.drop_last().drop_last() =~= if arguments.len() == 3 {
            seq![arguments[0]]
        } else {
            Seq::empty()
        });
        if arguments.len() == 3 {
            assert(arguments.drop_last()[0] == arguments[0]);
            assert(arguments.drop_last().last() == arguments[1]);
        }
        assert(comma_separated(arguments) =~= quoted(self.spec_name()) + self.tail());
    }

    /// Commands whose names and arguments look the same are the same.
    proof fn lemma_same(self, other: Command)
        requires
            comma_separated(self.spec_arguments()) == comma_separated(other.spec_arguments()),
        ensures
            self.same(other),
    {
        self.lemma_tail();
        other.lemma_tail();
        lemma_string_at_front(self.spec_name(), self.tail(), other.spec_name(), other.tail());
        reveal_strlit("seek");
        reveal_strlit("observe_property");
        reveal_strlit("get_property");
        reveal_strlit("set_property");
        reveal_strlit("loadfile");
        assert("get_property"@[0] != "set_property"@[0]);
        let comma = seq![','];
        match (self, other) {
            (Command::Seek(a, o), Command::Seek(b, p)) => {
                let (x, y) = (a@ + comma + quoted(o.spec_name()), b@ + comma + quoted(p.spec_name()));
                lemma_same_after(comma, x, y);
                lemma_seek_options_at_end(a@, o, b@, p);
            },
            (Command::Observe(n, a), Command::Observe(m, b)) => {
                let (x, y) = (
                    decimal(n as int) + comma + quoted(a@),
                    decimal(m as int) + comma + quoted(b@),
                );
                lemma_same_after(comma, x, y);
                lemma_number_at_front(n as int, quoted(a@), m as int, quoted(b@));
                lemma_string_at_front(a@, Seq::empty(), b@, Seq::empty());
            },
            (Command::GetProperty(a), Command::GetProperty(b)) => {
                lemma_same_after(comma, quoted(a@), quoted(b@));
                lemma_string_at_front(a@, Seq::empty(), b@, Seq::empty());
            },
            (Command::SetProperty(a, v), Command::SetProperty(b, w)) => {
                let (x, y) = (comma + v@, comma + w@);
                lemma_same_after(comma, quoted(a@) + x, quoted(b@) + y);
                lemma_string_at_front(a@, x, b@, y);
                lemma_same_after(comma, v@, w@);
            },
            (Command::LoadFile(a, o), Command::LoadFile(b, p)) => {
                let (x, y) = (comma + quoted(o.spec_name()), comma + quoted(p.spec_name()));
                lemma_same_after(comma, quoted(a@) + x, quoted(b@) + y);
                lemma_string_at_front(a@, x, b@, y);
            },
            _ => {
                assert(false);
            },
        }
    }
}

/// No two different commands look alike: what a player is sent says which command it is,
/// with which arguments, and under which number.
pub proof fn law_commands_are_told_apart(a: TaggedCommand, b: TaggedCommand)
    requires
        a.line() == b.line(),
    ensures
        a.request_id == b.request_id,
        a.command.same(b.command),
{
    reveal_strlit("],\"request_id\":");
    let (head, middle, end) = ("{\"command\":["@, "],\"request_id\":"@, "}"@);
    let (x, y) = (
        comma_separated(a.command.spec_arguments()),
        comma_separated(b.command.spec_arguments()),
    );
    let (n, m) = (a.request_id as int, b.request_id as int);
    lemma_same_before(
        head + x + middle + decimal(n),
        head + y + middle + decimal(m),
        end,
    );
    lemma_number_at_end(head + x + middle, n, head + y + middle, m);
    lemma_same_before(head + x, head + y, middle);
    lemma_same_after(head, x, y);
    a.command.lemma_same(b.command);
}

/// It does not matter how texts are put together, one after the other.
proof fn lemma_regroup(a: Seq<char>, b: Seq<char>, c: Seq<char>, d: Seq<char>)
    ensures
        a + (b + (c + d)) == a + b + c + d,
{
    assert(a + (b + (c + d)) =~= a + b + c + d);
}

proof fn lemma_regroup_three(a: Seq<char>, b: Seq<char>, c: Seq<char>, d: Seq<char>)
    ensures
        a + (b + c + d) == a + b + c + d,
        a + (b + (c + d)) == a + b + c + d,
{
    assert(a + (b + c + d) =~= a + b + c + d);
    assert(a + (b + (c + d)) =~= a + b + c + d);
}

proof fn lemma_regroup_end(a: Seq<char>, b: Seq<char>, c: Seq<char>, d: Seq<char>, e: Seq<char>)
    ensures
        a + (b + c + d) + e == a + b + (c + d + e),
        a + (b + (c + d)) + e == a + b + (c + d + e),
{
    assert(a + (b + c + d) + e =~= a + b + (c + d + e));
    assert(a + (b + (c + d)) + e =~= a + b + (c + d + e));
}

/// How commands begin.
#[verifier::rlimit(50)]
proof fn lemma_heads()
    ensures
        "{\"command\":["@ + quoted("seek"@) + seq![','] == "{\"command\":[\"seek\","@,
        "{\"command\":["@ + quoted("observe_property"@) + seq![','] == "{\"command\":[\"observe_property\","@,
        "{\"command\":["@ + quoted("get_property"@) + seq![','] == "{\"command\":[\"get_property\","@,
        "{\"command\":["@ + quoted("set_property"@) + seq![','] == "{\"command\":[\"set_property\","@,
        "{\"command\":["@ + quoted("loadfile"@) + seq![','] == "{\"command\":[\"loadfile\","@,
{
    reveal_strlit("{\"command\":[");
    reveal_strlit("seek");
    lemma_nothing_escaped("seek"@);
    reveal_strlit("{\"command\":[\"seek\",");
    assert("{\"command\":["@ + quoted("seek"@) + seq![','] =~= "{\"command\":[\"seek\","@);
    reveal_strlit("observe_property");
    lemma_nothing_escaped("observe_property"@);
    reveal_strlit("{\"command\":[\"observe_property\",");
    assert("{\"command\":["@ + quoted("observe_property"@) + seq![','] =~= "{\"command\":[\"observe_property\","@);
    reveal_strlit("get_property");
    lemma_nothing_escaped("get_property"@);
    reveal_strlit("{\"command\":[\"get_property\",");
    assert("{\"command\":["@ + quoted("get_property"@) + seq![','] =~= "{\"command\":[\"get_property\","@);
    reveal_strlit("set_property");
    lemma_nothing_escaped("set_property"@);
    reveal_strlit("{\"command\":[\"set_property\",");
    assert("{\"command\":["@ + quoted("set_property"@) + seq![','] =~= "{\"command\":[\"set_property\","@);
    reveal_strlit("loadfile");
    lemma_nothing_escaped("loadfile"@);
    reveal_strlit("{\"command\":[\"loadfile\",");
    assert("{\"command\":["@ + quoted("loadfile"@) + seq![','] =~= "{\"command\":[\"loadfile\","@);
}

/// How commands with options end, up to their number.
#[verifier::rlimit(50)]
proof fn lemma_ends()
    ensures
        seq![','] + quoted("relative"@) + "],\"request_id\":"@ == ",\"relative\"],\"request_id\":"@,
        seq![','] + quoted("absolute"@) + "],\"request_id\":"@ == ",\"absolute\"],\"request_id\":"@,
        seq![','] + quoted("relative-percent"@) + "],\"request_id\":"@ == ",\"relative-percent\"],\"request_id\":"@,
        seq![','] + quoted("absolute-percent"@) + "],\"request_id\":"@ == ",\"absolute-percent\"],\"request_id\":"@,
        seq![','] + quoted("replace"@) + "],\"request_id\":"@ == ",\"replace\"],\"request_id\":"@,
{
    reveal_strlit("],\"request_id\":");
    reveal_strlit("relative");
    lemma_nothing_escaped("relative"@);
    reveal_strlit(",\"relative\"],\"request_id\":");
    assert(seq![','] + quoted("relative"@) + "],\"request_id\":"@ =~= ",\"relative\"],\"request_id\":"@);
    reveal_strlit("absolute");
    lemma_nothing_escaped("absolute"@);
    reveal_strlit(",\"absolute\"],\"request_id\":");
    assert(seq![','] + quoted("absolute"@) + "],\"request_id\":"@ =~= ",\"absolute\"],\"request_id\":"@);
    reveal_strlit("relative-percent");
    lemma_nothing_escaped("relative-percent"@);
    reveal_strlit(",\"relative-percent\"],\"request_id\":");
    assert(seq![','] + quoted("relative-percent"@) + "],\"request_id\":"@ =~= ",\"relative-percent\"],\"request_id\":"@);
    reveal_strlit("absolute-percent");
    lemma_nothing_escaped("absolute-percent"@);
    reveal_strlit(",\"absolute-percent\"],\"request_id\":");
    assert(seq![','] + quoted("absolute-percent"@) + "],\"request_id\":"@ =~= ",\"absolute-percent\"],\"request_id\":"@);
    reveal_strlit("replace");
    lemma_nothing_escaped("replace"@);
    reveal_strlit(",\"replace\"],\"request_id\":");
    assert(seq![','] + quoted("replace"@) + "],\"request_id\":"@ =~= ",\"replace\"],\"request_id\":"@);
}

/// What each command is written as: the player's name for it and its arguments in their
/// order, each as JSON, and the number.
pub proof fn law_text_of_commands(item: TaggedCommand, r: String)
    requires
        call_ensures(TaggedCommand::to_line, (&item,), r),
    ensures
        ({
            let id = decimal(item.request_id as int);
            r@ == match item.command {
                Command::Seek(time, options) => "{\"command\":[\"seek\","@ + time@ + (match options {
                    SeekOptions::Relative => ",\"relative\"],\"request_id\":"@,
                    SeekOptions::Absolute => ",\"absolute\"],\"request_id\":"@,
                    SeekOptions::RelativePercent => ",\"relative-percent\"],\"request_id\":"@,
                    SeekOptions::AbsolutePercent => ",\"absolute-percent\"],\"request_id\":"@,
                }) + id + "}"@,
                Command::Observe(n, name) => "{\"command\":[\"observe_property\","@ + decimal(
                    n as int,
                ) + ","@ + quoted(name@) + "],\"request_id\":"@ + id + "}"@,
                Command::GetProperty(name) => "{\"command\":[\"get_property\","@ + quoted(name@)
                    + "],\"request_id\":"@ + id + "}"@,
                Command::SetProperty(name, value) => "{\"command\":[\"set_property\","@ + quoted(
                    name@,
                ) + ","@ + value@ + "],\"request_id\":"@ + id + "}"@,
                Command::LoadFile(name, _) => "{\"command\":[\"loadfile\","@ + quoted(name@)
                    + ",\"replace\"],\"request_id\":"@ + id + "}"@,
            }
        }),
        one_line(r@),
{
    let (head, end) = ("{\"command\":["@, "],\"request_id\":"@);
    let comma = seq![','];
    let name = quoted(item.command.spec_name());
    let start = head + name + comma;
    item.command.lemma_tail();
    lemma_heads();
    lemma_ends();
    assert(","@ == comma) by {
        reveal_strlit(",");
    }
    match item.command {
        Command::Seek(time, options) => {
            let option = quoted(options.spec_name());
            lemma_regroup(head, name, comma, time@ + comma + option);
            lemma_regroup_end(start, time@, comma, option, end);
        },
        Command::Observe(n, property) => {
            lemma_regroup(head, name, comma, decimal(n as int) + comma + quoted(property@));
            lemma_regroup_three(start, decimal(n as int), comma, quoted(property@));
        },
        Command::GetProperty(property) => {
            lemma_regroup(head, name, comma, quoted(property@));
        },
        Command::SetProperty(property, value) => {
            lemma_regroup(head, name, comma, quoted(property@) + (comma + value@));
            lemma_regroup_three(start, quoted(property@), comma, value@);
        },
        Command::LoadFile(file, options) => {
            let option = quoted(options.spec_name());
            lemma_regroup(head, name, comma, quoted(file@) + (comma + option));
            lemma_regroup_end(start, quoted(file@), comma, option, end);
        },
    }
}

/// A copy of a command is the command.
pub proof fn law_copies_of_commands(item: TaggedCommand, copy: TaggedCommand)
    requires
        call_ensures(TaggedCommand::clone, (&item,), copy),
    ensures
        copy == item,
{
}

/// The player's names for the options.
pub proof fn law_names_of_options(
    seek: SeekOptions,
    r: &'static str,
    load: LoadFileOptions,
    s: &'static str,
)
    requires
        call_ensures(SeekOptions::name, (&seek,), r),
        call_ensures(LoadFileOptions::name, (&load,), s),
    ensures
        seek is Relative ==> r@ == "relative"@,
        seek is Absolute ==> r@ == "absolute"@,
        seek is RelativePercent ==> r@ == "relative-percent"@,
        seek is AbsolutePercent ==> r@ == "absolute-percent"@,
        s@ == "replace"@,
{
}

/// The name of a command comes first, and its arguments follow in their order.
pub proof fn law_arguments(command: Command, r: Vec<String>)
    requires
        call_ensures(Command::arguments, (&command,), r),
    ensures
        r@.len() == if command is GetProperty {
            2nat
        } else {
            3nat
        },
        command matches Command::Seek(time, _) ==> r@[0]@ == quoted("seek"@) && r@[1]@ == time@,
        command matches Command::Observe(id, name) ==> r@[0]@ == quoted("observe_property"@)
            && r@[1]@ == decimal(id as int) && r@[2]@ == quoted(name@),
        command matches Command::GetProperty(name) ==> r@[0]@ == quoted("get_property"@) && r@[1]@
            == quoted(name@),
        command matches Command::SetProperty(name, value) ==> r@[0]@ == quoted("set_property"@)
            && r@[1]@ == quoted(name@) && r@[2]@ == value@,
        command matches Command::LoadFile(name, _) ==> r@[0]@ == quoted("loadfile"@) && r@[1]@
            == quoted(name@) && r@[2]@ == quoted("replace"@),
        command matches Command::Seek(_, SeekOptions::Relative) ==> r@[2]@ == quoted("relative"@),
        command matches Command::Seek(_, SeekOptions::Absolute) ==> r@[2]@ == quoted("absolute"@),
        command matches Command::Seek(_, SeekOptions::RelativePercent) ==> r@[2]@ == quoted(
            "relative-percent"@,
        ),
        command matches Command::Seek(_, SeekOptions::AbsolutePercent) ==> r@[2]@ == quoted(
            "absolute-percent"@,
        ),
{
    assert(texts(r@).len() == r@.len());
    assert(forall|i: int| 0 <= i < r@.len() ==> texts(r@)[i] == #[trigger] r@[i]@);
}

} // verus!
