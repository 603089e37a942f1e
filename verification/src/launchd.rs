//! The launchd agent property list that runs `nitora serve`.

use vstd::prelude::*;

use vstd::string::StringSliceAdditionalSpecFns;

use crate::text::{join_path, path_join};

verus! {

/// The XML text that stands for `c` inside an element: the five characters
/// with a meaning in XML become entities, every other character stays.
pub open spec fn escape_char(c: char) -> Seq<char> {
    if c == '&' {
        seq!['&', 'a', 'm', 'p', ';']
    } else if c == '<' {
        seq!['&', 'l', 't', ';']
    } else if c == '>' {
        seq!['&', 'g', 't', ';']
    } else if c == '"' {
        seq!['&', 'q', 'u', 'o', 't', ';']
    } else if c == '\'' {
        seq!['&', 'a', 'p', 'o', 's', ';']
    } else {
        seq![c]
    }
}

/// `s` with each character replaced by its XML escape.
pub open spec fn escape_xml(s: Seq<char>) -> Seq<char>
    decreases s.len(),
{
    if s.len() == 0 {
        Seq::empty()
    } else {
        escape_xml(s.drop_last()) + escape_char(s.last())
    }
}

fn push_escaped(out: &mut String, c: char)
    ensures
        final(out)@ == old(out)@ + escape_char(c),
{
    if c == '&' {
        out.append("&amp;");
        proof { reveal_strlit("&amp;"); }
    } else if c == '<' {
        out.append("&lt;");
        proof { reveal_strlit("&lt;"); }
    } else if c == '>' {
        out.append("&gt;");
        proof { reveal_strlit("&gt;"); }
    } else if c == '"' {
        out.append("&quot;");
        proof { reveal_strlit("&quot;"); }
    } else if c == '\'' {
        out.append("&apos;");
        proof { reveal_strlit("&apos;"); }
    } else {
        out.push(c);
    }
}

/// Escapes `&`, `<`, `>`, `"` and `'` for use in XML text.
pub fn xml_escape(value: &str) -> (escaped: String)
    ensures
        escaped@ == escape_xml(value@),
{
    let mut out = String::new();
    for c in it: value.chars()
        invariant
            it.seq() == value@,
            out@ == escape_xml(value@.take(it.index() as int)),
    {
        proof {
            assert(value@.take(it.index() as int + 1).drop_last() == value@.take(it.index() as int));
        }
        push_escaped(&mut out, c);
    }
    proof {
        assert(value@.take(value@.len() as int) == value@);
    }
    out
}


/// The label under which launchd knows the service.
pub const SERVICE_LABEL: &'static str = "dev.nitora.daemon";

/// The property list up to the service label.
pub const PLIST_HEAD: &'static str = "<?xml version=\"1.0\" encoding=\"UTF-8\"?>
<!DOCTYPE plist PUBLIC \"-//Apple//DTD PLIST 1.0//EN\" \"http://www.apple.com/DTDs/PropertyList-1.0.dtd\">
<plist version=\"1.0\">
<dict>
  <key>Label</key>
  <string>";

/// The property list between the label and the program path.
pub const PLIST_BEFORE_PROGRAM: &'static str = "</string>
  <key>ProgramArguments</key>
  <array>
    <string>";

/// The property list between the program path and the socket path.
pub const PLIST_BEFORE_SOCKET: &'static str = "</string>
    <string>serve</string>
  </array>
  <key>EnvironmentVariables</key>
  <dict>
    <key>NITORA_SOCKET</key>
    <string>";

/// The property list after the socket path.
pub const PLIST_TAIL: &'static str = "</string>
  </dict>
  <key>KeepAlive</key>
  <true/>
  <key>RunAtLoad</key>
  <true/>
  <key>ProcessType</key>
  <string>Interactive</string>
  <key>StandardOutPath</key>
  <string>/tmp/nitora.stdout.log</string>
  <key>StandardErrorPath</key>
  <string>/tmp/nitora.stderr.log</string>
</dict>
</plist>
";

/// The launchd property list that runs `program serve` under `label`, kept
/// alive and started at load, with `NITORA_SOCKET` set to `socket`; the
/// three values are XML-escaped.
pub open spec fn plist_text(program: Seq<char>, socket: Seq<char>, label: Seq<char>) -> Seq<char> {
    PLIST_HEAD@ + escape_xml(label) + PLIST_BEFORE_PROGRAM@ + escape_xml(program)
        + PLIST_BEFORE_SOCKET@ + escape_xml(socket) + PLIST_TAIL@
}

/// Renders the launchd agent property list.
pub fn render_plist(program_path: &str, socket_path: &str, label: &str) -> (plist: String)
    ensures
        plist@ == plist_text(program_path@, socket_path@, label@),
{
    let mut plist = PLIST_HEAD.to_owned();
    let label_text = xml_escape(label);
    plist.append(label_text.as_str());
    plist.append(PLIST_BEFORE_PROGRAM);
    let program_text = xml_escape(program_path);
    plist.append(program_text.as_str());
    plist.append(PLIST_BEFORE_SOCKET);
    let socket_text = xml_escape(socket_path);
    plist.append(socket_text.as_str());
    plist.append(PLIST_TAIL);
    plist
}

/// Where the agent's property list goes below the home directory.
pub const AGENT_PLIST_SUBPATH: &'static str = "Library/LaunchAgents/dev.nitora.daemon.plist";

/// The agent property list path (as raw path bytes) below the home
/// directory `home`.
pub open spec fn agent_plist_path_for(home: Seq<u8>) -> Seq<u8> {
    path_join(home, AGENT_PLIST_SUBPATH.spec_bytes())
}

/// Why the agent property list path could not be found.
#[derive(Debug, Clone, Copy, PartialEq, Eq, Structural)]
pub enum LaunchdError {
    /// No home directory could be determined.
    NoHomeDirectory,
}

/// The current user's home directory (`dirs::home_dir`), as the bytes of
/// its path (`OsString::into_encoded_bytes`). The crate takes `$HOME` when
/// it is set and not empty, else the password database entry, and returns
/// `None` where that is empty or missing; so a returned directory is never
/// empty. Which directory it is depends on the environment and is not
/// stated.
#[verifier::external_body]
fn home_dir() -> (home: Option<Vec<u8>>)
    ensures
        home matches Some(h) ==> h@.len() > 0,
{
    dirs::home_dir().map(|p| p.into_os_string().into_encoded_bytes())
}

/// The agent property list path inside the home directory `home`.
pub fn agent_plist_path_in(home: &[u8]) -> (path: Vec<u8>)
    ensures
        path@ == agent_plist_path_for(home@),
{
    join_path(home, AGENT_PLIST_SUBPATH.as_bytes())
}

/// The agent property list path of the current user:
/// `~/Library/LaunchAgents/dev.nitora.daemon.plist`.
pub fn agent_plist_path() -> (path: Result<Vec<u8>, LaunchdError>)
    ensures
        path matches Ok(p) ==> exists|home: Seq<u8>|
            home.len() > 0 && p@ == #[trigger] agent_plist_path_for(home),
{
    agent_plist_path_from(home_dir())
}

/// The agent property list path for the home directory that was found,
/// if one was: the path inside it, or `NoHomeDirectory`.
pub fn agent_plist_path_from(home: Option<Vec<u8>>) -> (path: Result<Vec<u8>, LaunchdError>)
    ensures
        home is None ==> path == Err::<Vec<u8>, LaunchdError>(LaunchdError::NoHomeDirectory),
        home matches Some(h) ==> (path matches Ok(p) && p@ == agent_plist_path_for(h@)),
{
    match home {
        Some(home) => Ok(agent_plist_path_in(home.as_slice())),
        None => Err(LaunchdError::NoHomeDirectory),
    }
}

/// Reads XML text back: each of the five entities that `escape_char`
/// writes stands for its character; everything else stands for itself.
pub open spec fn unescape_xml(s: Seq<char>) -> Seq<char>
    decreases s.len(),
{
    if s.len() == 0 {
        Seq::empty()
    } else if s.len() >= 5 && s.take(5) == seq!['&', 'a', 'm', 'p', ';'] {
        seq!['&'] + unescape_xml(s.skip(5))
    } else if s.len() >= 4 && s.take(4) == seq!['&', 'l', 't', ';'] {
        seq!['<'] + unescape_xml(s.skip(4))
    } else if s.len() >= 4 && s.take(4) == seq!['&', 'g', 't', ';'] {
        seq!['>'] + unescape_xml(s.skip(4))
    } else if s.len() >= 6 && s.take(6) == seq!['&', 'q', 'u', 'o', 't', ';'] {
        seq!['"'] + unescape_xml(s.skip(6))
    } else if s.len() >= 6 && s.take(6) == seq!['&', 'a', 'p', 'o', 's', ';'] {
        seq!['\''] + unescape_xml(s.skip(6))
    } else {
        seq![s[0]] + unescape_xml(s.drop_first())
    }
}

/// Escaping distributes over concatenation.
pub proof fn lemma_escape_xml_concat(a: Seq<char>, b: Seq<char>)
    ensures
        escape_xml(a + b) == escape_xml(a) + escape_xml(b),
    decreases b.len(),
{
    if b.len() == 0 {
        assert(a + b == a);
        assert(escape_xml(b) == Seq::<char>::empty());
        assert(escape_xml(a) + escape_xml(b) == escape_xml(a));
    } else {
        lemma_escape_xml_concat(a, b.drop_last());
        assert((a + b).drop_last() == a + b.drop_last());
        assert((a + b).last() == b.last());
    }
}

proof fn lemma_unescape_escaped_char(c: char, rest: Seq<char>)
    ensures
        unescape_xml(escape_char(c) + rest) == seq![c] + unescape_xml(rest),
{
    let e = escape_char(c);
    let s = e + rest;
    if c == '&' {
        assert(s.take(5) == e);
        assert(s.skip(5) == rest);
    } else if c == '<' {
        assert(s.take(4) == e);
        assert(s.skip(4) == rest);
        assert(s[1] == 'l');
    } else if c == '>' {
        assert(s.take(4) == e);
        assert(s.skip(4) == rest);
        assert(s[1] == 'g');
    } else if c == '"' {
        assert(s.take(6) == e);
        assert(s.skip(6) == rest);
        assert(s[1] == 'q');
    } else if c == '\'' {
        assert(s.take(6) == e);
        assert(s.skip(6) == rest);
        assert(s[1] == 'a' && s[2] == 'p');
    } else {
        assert(s[0] == c);
        assert(s.len() >= 5 ==> s.take(5)[0] == c);
        assert(s.len() >= 4 ==> s.take(4)[0] == c);
        assert(s.len() >= 6 ==> s.take(6)[0] == c);
        assert(s.drop_first() == rest);
    }
}

/// Escaping loses nothing: reading the escaped text back gives the
/// original text, for every input.
pub proof fn lemma_unescape_escape_xml(s: Seq<char>)
    ensures
        unescape_xml(escape_xml(s)) == s,
    decreases s.len(),
{
    if s.len() > 0 {
        let rest = s.drop_first();
        lemma_escape_xml_concat(seq![s[0]], rest);
        assert(seq![s[0]] + rest == s);
        assert(escape_xml(seq![s[0]]) == escape_char(s[0])) by {
            let one = seq![s[0]];
            assert(one.drop_last() == Seq::<char>::empty());
            assert(escape_xml(one.drop_last()) == Seq::<char>::empty());
            assert(one.last() == s[0]);
            assert(Seq::<char>::empty() + escape_char(s[0]) == escape_char(s[0]));
        }
        lemma_unescape_escaped_char(s[0], escape_xml(rest));
        lemma_unescape_escape_xml(rest);
    }
}

/// Escaped text holds none of `<`, `>`, `"` and `'`, so it can stand
/// between tags and inside attribute quotes.
pub proof fn lemma_escape_xml_no_markup(s: Seq<char>)
    ensures
        forall|i: int|
            0 <= i < escape_xml(s).len() ==> {
                let c = #[trigger] escape_xml(s)[i];
                c != '<' && c != '>' && c != '"' && c != '\''
            },
    decreases s.len(),
{
    if s.len() > 0 {
        lemma_escape_xml_no_markup(s.drop_last());
        let a = escape_xml(s.drop_last());
        let e = escape_char(s.last());
        assert forall|i: int| 0 <= i < (a + e).len() implies {
            let c = #[trigger] (a + e)[i];
            c != '<' && c != '>' && c != '"' && c != '\''
        } by {
            if i >= a.len() {
                assert((a + e)[i] == e[i - a.len()]);
            } else {
                assert((a + e)[i] == a[i]);
            }
        }
    }
}


/// The text at the start of `t` up to its first `<` (all of `t` when it
/// has none): the content of an element whose end tag follows.
pub open spec fn text_before_tag(t: Seq<char>) -> Seq<char>
    decreases t.len(),
{
    if t.len() == 0 || t[0] == '<' {
        Seq::empty()
    } else {
        seq![t[0]] + text_before_tag(t.drop_first())
    }
}

/// Whether `t` starts with `prefix`.
pub open spec fn starts_with(t: Seq<char>, prefix: Seq<char>) -> bool {
    t.len() >= prefix.len() && t.take(prefix.len() as int) == prefix
}

/// Reads the label, program path and socket path back from an agent
/// property list: the text must be the template with three element
/// contents in it, and each content is unescaped. `None` when the text
/// does not have that shape.
pub open spec fn read_plist_values(text: Seq<char>) -> Option<(Seq<char>, Seq<char>, Seq<char>)> {
    let head = PLIST_HEAD@;
    let before_program = PLIST_BEFORE_PROGRAM@;
    let before_socket = PLIST_BEFORE_SOCKET@;
    if !starts_with(text, head) {
        None
    } else {
        let r0 = text.skip(head.len() as int);
        let label = text_before_tag(r0);
        let r1 = r0.skip(label.len() as int);
        if !starts_with(r1, before_program) {
            None
        } else {
            let r2 = r1.skip(before_program.len() as int);
            let program = text_before_tag(r2);
            let r3 = r2.skip(program.len() as int);
            if !starts_with(r3, before_socket) {
                None
            } else {
                let r4 = r3.skip(before_socket.len() as int);
                let socket = text_before_tag(r4);
                let r5 = r4.skip(socket.len() as int);
                if r5 != PLIST_TAIL@ {
                    None
                } else {
                    Some((unescape_xml(label), unescape_xml(program), unescape_xml(socket)))
                }
            }
        }
    }
}

proof fn lemma_text_before_tag_escaped(value: Seq<char>, rest: Seq<char>)
    requires
        rest.len() > 0,
        rest[0] == '<',
    ensures
        text_before_tag(escape_xml(value) + rest) == escape_xml(value),
{
    lemma_escape_xml_no_markup(value);
    lemma_text_before_tag_no_markup(escape_xml(value), rest);
}

proof fn lemma_text_before_tag_no_markup(e: Seq<char>, rest: Seq<char>)
    requires
        rest.len() > 0,
        rest[0] == '<',
        forall|i: int| 0 <= i < e.len() ==> #[trigger] e[i] != '<',
    ensures
        text_before_tag(e + rest) == e,
    decreases e.len(),
{
    if e.len() == 0 {
        assert(e + rest == rest);
    } else {
        let t = e + rest;
        assert(t[0] == e[0]);
        assert(t.drop_first() == e.drop_first() + rest);
        assert forall|i: int| 0 <= i < e.drop_first().len() implies #[trigger] e.drop_first()[i] != '<' by {
            assert(e.drop_first()[i] == e[i + 1]);
        }
        lemma_text_before_tag_no_markup(e.drop_first(), rest);
        assert(seq![e[0]] + e.drop_first() == e);
    }
}

proof fn lemma_skip_prefix(a: Seq<char>, b: Seq<char>)
    ensures
        starts_with(a + b, a),
        (a + b).skip(a.len() as int) == b,
{
    assert((a + b).take(a.len() as int) == a);
    assert((a + b).skip(a.len() as int) == b);
}

/// Reading the property list back gives exactly the label, program path
/// and socket path it was rendered from, whatever characters they hold;
/// the rest of the text is the fixed template (which runs the program with
/// `serve`, keeps it alive, starts it at load and sets `NITORA_SOCKET`).
pub proof fn lemma_read_plist_values(program: Seq<char>, socket: Seq<char>, label: Seq<char>)
    ensures
        read_plist_values(plist_text(program, socket, label)) == Some((label, program, socket)),
{
    reveal_strlit("</string>
  <key>ProgramArguments</key>
  <array>
    <string>");
    reveal_strlit("</string>
    <string>serve</string>
  </array>
  <key>EnvironmentVariables</key>
  <dict>
    <key>NITORA_SOCKET</key>
    <string>");
    reveal_strlit("</string>
  </dict>
  <key>KeepAlive</key>
  <true/>
  <key>RunAtLoad</key>
  <true/>
  <key>ProcessType</key>
  <string>Interactive</string>
  <key>StandardOutPath</key>
  <string>/tmp/nitora.stdout.log</string>
  <key>StandardErrorPath</key>
  <string>/tmp/nitora.stderr.log</string>
</dict>
</plist>
");
    let head = PLIST_HEAD@;
    let b1 = PLIST_BEFORE_PROGRAM@;
    let b2 = PLIST_BEFORE_SOCKET@;
    let tail = PLIST_TAIL@;
    assert(b1.len() > 0 && b1[0] == '<');
    assert(b2.len() > 0 && b2[0] == '<');
    assert(tail.len() > 0 && tail[0] == '<');
    let el = escape_xml(label);
    let ep = escape_xml(program);
    let es = escape_xml(socket);
    let r5 = tail;
    let r4 = es + r5;
    let r3 = b2 + r4;
    let r2 = ep + r3;
    let r1 = b1 + r2;
    let r0 = el + r1;
    let text = head + r0;
    assert(plist_text(program, socket, label) == text);
    lemma_skip_prefix(head, r0);
    lemma_text_before_tag_escaped(label, r1);
    lemma_skip_prefix(el, r1);
    lemma_skip_prefix(b1, r2);
    lemma_text_before_tag_escaped(program, r3);
    lemma_skip_prefix(ep, r3);
    lemma_skip_prefix(b2, r4);
    lemma_text_before_tag_escaped(socket, r5);
    lemma_skip_prefix(es, r5);
    lemma_unescape_escape_xml(label);
    lemma_unescape_escape_xml(program);
    lemma_unescape_escape_xml(socket);
}

} // verus!
