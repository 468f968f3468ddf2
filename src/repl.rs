//! The command language of the interactive console: a line, split into
//! words, becomes a command, or the message that explains why not.
use vstd::prelude::*;
use crate::job::{ClientJob, Status, StatusView};
use crate::text::text_eq;

verus! {

/// The characters of each word.
pub open spec fn words_of(tokens: Seq<String>) -> Seq<Seq<char>> {
    tokens.map_values(|s: String| s@)
}

/// The words from index `k` on.
fn words_from(tokens: &Vec<String>, k: usize) -> (r: Vec<String>)
    ensures
        words_of(r@) == words_of(tokens@).subrange(
            if k <= tokens@.len() { k as int } else { tokens@.len() as int },
            tokens@.len() as int,
        ),
{
    let mut out: Vec<String> = Vec::new();
    let start: usize = if k <= tokens.len() { k } else { tokens.len() };
    let mut i: usize = start;
    while i < tokens.len()
        invariant
            start <= i <= tokens@.len(),
            start == (if k <= tokens@.len() { k as int } else { tokens@.len() as int }),
            words_of(out@) == words_of(tokens@).subrange(start as int, i as int),
        decreases tokens@.len() - i,
    {
        let w = tokens[i].clone();
        proof {
            assert(w@ == tokens@[i as int]@);
            assert(words_of(out@.push(w)) =~= words_of(out@).push(w@));
            assert(words_of(out@.push(w)) =~= words_of(tokens@).subrange(start as int, i + 1));
        }
        out.push(w);
        i = i + 1;
    }
    out
}

/// What `echo` prints: each word followed by a space.
pub open spec fn echo_of(words: Seq<Seq<char>>) -> Seq<char>
    decreases words.len(),
{
    if words.len() == 0 {
        Seq::empty()
    } else {
        echo_of(words.drop_last()) + words.last() + seq![' ']
    }
}

/// Each word followed by a space.
pub fn echo(words: &Vec<String>) -> (r: String)
    ensures
        r@ == echo_of(words_of(words@)),
{
    let mut out = String::new();
    let mut i: usize = 0;
    proof {
        reveal_strlit(" ");
        assert(words_of(words@).subrange(0, 0) =~= Seq::<Seq<char>>::empty());
    }
    while i < words.len()
        invariant
            i <= words@.len(),
            out@ == echo_of(words_of(words@).subrange(0, i as int)),
        decreases words@.len() - i,
    {
        proof {
            reveal_strlit(" ");
        }
        out.append(words[i].as_str());
        out.append(" ");
        proof {
            let ws = words_of(words@);
            assert(ws.subrange(0, i + 1).drop_last() =~= ws.subrange(0, i as int));
            assert(ws.subrange(0, i + 1).last() == words@[i as int]@);
        }
        i = i + 1;
    }
    proof {
        assert(words_of(words@).subrange(0, words@.len() as int) =~= words_of(words@));
    }
    out
}

/// Whether a byte is an ASCII digit.
pub open spec fn is_digit_byte(b: u8) -> bool {
    48 <= b <= 57
}

/// The number that a string of ASCII digits writes in decimal.
pub open spec fn digits_value(digits: Seq<u8>) -> nat
    decreases digits.len(),
{
    if digits.len() == 0 {
        0
    } else {
        digits_value(digits.drop_last()) * 10 + (digits.last() - 48) as nat
    }
}

/// The text without its leading `+`, if it has one.
pub open spec fn unsigned_part(bytes: Seq<u8>) -> Seq<u8> {
    if bytes.len() > 0 && bytes[0] == 43 {
        bytes.drop_first()
    } else {
        bytes
    }
}

/// Whether every byte is an ASCII digit.
pub open spec fn all_digits(bytes: Seq<u8>) -> bool {
    forall|i: int| 0 <= i < bytes.len() ==> is_digit_byte(#[trigger] bytes[i])
}

/// What std's `u64` parsing makes of the UTF-8 bytes of a text: an optional
/// `+`, then at least one ASCII digit and nothing else, of a value that fits.
pub open spec fn parsed_u64(bytes: Seq<u8>) -> Option<u64> {
    let body = unsigned_part(bytes);
    if body.len() > 0 && all_digits(body) && digits_value(body) <= u64::MAX {
        Some(digits_value(body) as u64)
    } else {
        None
    }
}

proof fn lemma_digits_value_grows(digits: Seq<u8>, j: int)
    requires
        0 <= j <= digits.len(),
        all_digits(digits),
    ensures
        digits_value(digits.subrange(0, j)) <= digits_value(digits),
    decreases digits.len(),
{
    if j < digits.len() {
        let shorter = digits.drop_last();
        assert(shorter.subrange(0, j) =~= digits.subrange(0, j));
        lemma_digits_value_grows(shorter, j);
    } else {
        assert(digits.subrange(0, j) =~= digits);
    }
}

/// Reads a serial written in decimal.
pub fn parse_u64(text: &str) -> (r: Option<u64>)
    ensures
        r == parsed_u64(crate::text::utf8_of(text@)),
{
    let bytes = text.as_bytes();
    let ghost all = bytes@;
    let start: usize = if bytes.len() > 0 && bytes[0] == 43 { 1 } else { 0 };
    let ghost body = unsigned_part(all);
    proof {
        assert(body =~= all.subrange(start as int, all.len() as int));
    }
    if start == bytes.len() {
        return None;
    }
    let mut value: u64 = 0;
    let mut i: usize = start;
    while i < bytes.len()
        invariant
            bytes@ == all,
            all == crate::text::utf8_of(text@),
            body == unsigned_part(all),
            start <= i <= all.len(),
            body == all.subrange(start as int, all.len() as int),
            forall|j: int| 0 <= j < i - start ==> is_digit_byte(#[trigger] body[j]),
            value as nat == digits_value(body.subrange(0, i - start)),
        decreases all.len() - i,
    {
        let b = bytes[i];
        if b < 48 || b > 57 {
            proof {
                assert(!is_digit_byte(body[i - start]));
                assert(!all_digits(body));
            }
            return None;
        }
        let d = (b - 48) as u64;
        proof {
            assert(body.subrange(0, i - start + 1).drop_last() =~= body.subrange(0, i - start));
        }
        proof {
            assert(body.subrange(0, i - start + 1).last() == b);
            assert(digits_value(body.subrange(0, i - start + 1)) == value as nat * 10 + d as nat);
        }
        if value > (u64::MAX - d) / 10 {
            proof {
                assert(value as nat * 10 + d as nat > u64::MAX) by (nonlinear_arith)
                    requires
                        value > (u64::MAX - d) / 10,
                        d <= 9,
                ;
                assert(digits_value(body.subrange(0, i - start + 1)) > u64::MAX);
                if all_digits(body) {
                    lemma_digits_value_grows(body, i - start + 1);
                }
            }
            return None;
        }
        proof {
            assert(value as nat * 10 + d as nat <= u64::MAX) by (nonlinear_arith)
                requires
                    value <= (u64::MAX - d) / 10,
                    d <= 9,
            ;
            assert forall|j: int| 0 <= j < i - start + 1 implies is_digit_byte(#[trigger] body[j]) by {
                if j == i - start {
                    assert(body[j] == b);
                }
            }
        }
        value = value * 10 + d;
        i = i + 1;
    }
    proof {
        assert(body.subrange(0, body.len() as int) =~= body);
    }
    Some(value)
}

/// The serials that open a list of words: every word up to the first one
/// that is not a serial.
pub open spec fn leading_serials(words: Seq<Seq<char>>) -> Seq<u64>
    decreases words.len(),
{
    if words.len() == 0 {
        Seq::empty()
    } else {
        match parsed_u64(crate::text::utf8_of(words[0])) {
            Some(n) => seq![n] + leading_serials(words.drop_first()),
            None => Seq::empty(),
        }
    }
}

/// The serials that open `words`.
pub fn serials_from(words: &Vec<String>) -> (r: Vec<u64>)
    ensures
        r@ == leading_serials(words_of(words@)),
{
    let mut out: Vec<u64> = Vec::new();
    let mut i: usize = 0;
    proof {
        assert(words_of(words@).subrange(0, words@.len() as int) =~= words_of(words@));
        assert(out@ + leading_serials(words_of(words@)) =~= leading_serials(words_of(words@)));
    }
    while i < words.len()
        invariant
            i <= words@.len(),
            out@ + leading_serials(words_of(words@).subrange(i as int, words@.len() as int))
                == leading_serials(words_of(words@)),
        decreases words@.len() - i,
    {
        let ghost rest = words_of(words@).subrange(i as int, words@.len() as int);
        proof {
            assert(rest.drop_first() =~= words_of(words@).subrange(i + 1, words@.len() as int));
        }
        match parse_u64(words[i].as_str()) {
            Some(n) => {
                proof {
                    assert(out@.push(n) + leading_serials(rest.drop_first()) =~= out@ + leading_serials(rest));
                }
                out.push(n);
            },
            None => {
                proof {
                    assert(out@ =~= out@ + leading_serials(rest));
                }
                return out;
            },
        }
        i = i + 1;
    }
    proof {
        assert(words_of(words@).subrange(words@.len() as int, words@.len() as int) =~= Seq::<Seq<char>>::empty());
        assert(out@ + Seq::<u64>::empty() =~= out@);
    }
    out
}

/// A part of the subject name of a new request.
#[derive(PartialEq, Eq, Structural, Clone, Copy, Debug)]
pub enum NameKind {
    CommonName,
    CountryName,
    OrganizationName,
    OrganizationalUnitName,
    LocalityName,
    StateOrProvinceName,
}

/// A subject alternative name of a new request.
#[derive(Debug)]
pub enum AltName {
    Dns(String),
    Ip(String),
}

/// The mathematical value of an [`AltName`].
pub enum AltNameView {
    Dns(Seq<char>),
    Ip(Seq<char>),
}

impl View for AltName {
    type V = AltNameView;

    open spec fn view(&self) -> AltNameView {
        match self {
            AltName::Dns(n) => AltNameView::Dns(n@),
            AltName::Ip(a) => AltNameView::Ip(a@),
        }
    }
}

/// A request to be built in the console: the file of its private key, the
/// parts of its subject in order, its alternative names in order, whether
/// to return without waiting for the certificate, and the words that were
/// not understood.
#[derive(Debug)]
pub struct NewRequest {
    pub key_path: Option<String>,
    pub names: Vec<(NameKind, String)>,
    pub alt_names: Vec<AltName>,
    pub detach: bool,
    pub ignored: Vec<String>,
}

/// The mathematical value of a [`NewRequest`].
pub struct NewRequestView {
    pub key_path: Option<Seq<char>>,
    pub names: Seq<(NameKind, Seq<char>)>,
    pub alt_names: Seq<AltNameView>,
    pub detach: bool,
    pub ignored: Seq<Seq<char>>,
}

impl View for NewRequest {
    type V = NewRequestView;

    open spec fn view(&self) -> NewRequestView {
        NewRequestView {
            key_path: match self.key_path {
                Some(k) => Some(k@),
                None => None,
            },
            names: self.names@.map_values(|p: (NameKind, String)| (p.0, p.1@)),
            alt_names: self.alt_names@.map_values(|a: AltName| a@),
            detach: self.detach,
            ignored: words_of(self.ignored@),
        }
    }
}

/// What an option word of `request new` stands for.
#[derive(PartialEq, Eq, Structural, Clone, Copy, Debug)]
pub enum Flag {
    Detach,
    Key,
    Name(NameKind),
    Dns,
    Ip,
    Other,
}

/// The meaning of an option word.
pub open spec fn flag_of(w: Seq<char>) -> Flag {
    if w == "-async"@ {
        Flag::Detach
    } else if w == "-key"@ {
        Flag::Key
    } else if w == "-cn"@ {
        Flag::Name(NameKind::CommonName)
    } else if w == "-c"@ {
        Flag::Name(NameKind::CountryName)
    } else if w == "-o"@ {
        Flag::Name(NameKind::OrganizationName)
    } else if w == "-ou"@ {
        Flag::Name(NameKind::OrganizationalUnitName)
    } else if w == "-l"@ {
        Flag::Name(NameKind::LocalityName)
    } else if w == "-st"@ {
        Flag::Name(NameKind::StateOrProvinceName)
    } else if w == "-alt"@ {
        Flag::Dns
    } else if w == "-ip"@ {
        Flag::Ip
    } else {
        Flag::Other
    }
}

/// The meaning of an option word.
pub fn flag(w: &str) -> (r: Flag)
    ensures
        r == flag_of(w@),
{
    if text_eq(w, "-async") {
        Flag::Detach
    } else if text_eq(w, "-key") {
        Flag::Key
    } else if text_eq(w, "-cn") {
        Flag::Name(NameKind::CommonName)
    } else if text_eq(w, "-c") {
        Flag::Name(NameKind::CountryName)
    } else if text_eq(w, "-o") {
        Flag::Name(NameKind::OrganizationName)
    } else if text_eq(w, "-ou") {
        Flag::Name(NameKind::OrganizationalUnitName)
    } else if text_eq(w, "-l") {
        Flag::Name(NameKind::LocalityName)
    } else if text_eq(w, "-st") {
        Flag::Name(NameKind::StateOrProvinceName)
    } else if text_eq(w, "-alt") {
        Flag::Dns
    } else if text_eq(w, "-ip") {
        Flag::Ip
    } else {
        Flag::Other
    }
}

/// The request with the value `v` of an option that takes one.
pub open spec fn with_value(acc: NewRequestView, f: Flag, v: Seq<char>) -> NewRequestView {
    match f {
        Flag::Key => NewRequestView { key_path: Some(v), ..acc },
        Flag::Name(kind) => NewRequestView { names: acc.names.push((kind, v)), ..acc },
        Flag::Dns => NewRequestView { alt_names: acc.alt_names.push(AltNameView::Dns(v)), ..acc },
        Flag::Ip => NewRequestView { alt_names: acc.alt_names.push(AltNameView::Ip(v)), ..acc },
        _ => acc,
    }
}

/// The options of `request new`, read from left to right into `acc`: an
/// option that takes a value and has none is an error.
pub open spec fn options_from(words: Seq<Seq<char>>, acc: NewRequestView) -> Result<
    NewRequestView,
    Seq<char>,
>
    decreases words.len(),
{
    if words.len() == 0 {
        Ok(acc)
    } else {
        match flag_of(words[0]) {
            Flag::Detach => options_from(words.drop_first(), NewRequestView { detach: true, ..acc }),
            Flag::Other => options_from(
                words.drop_first(),
                NewRequestView { ignored: acc.ignored.push(words[0]), ..acc },
            ),
            f => if words.len() < 2 {
                Err("Expected argument after "@ + words[0])
            } else {
                options_from(words.subrange(2, words.len() as int), with_value(acc, f, words[1]))
            },
        }
    }
}

/// The request before any option.
pub open spec fn no_options() -> NewRequestView {
    NewRequestView {
        key_path: None,
        names: Seq::empty(),
        alt_names: Seq::empty(),
        detach: false,
        ignored: Seq::empty(),
    }
}

/// Reads the options of `request new`.
pub fn parse_new_request(words: &Vec<String>) -> (r: Result<NewRequest, String>)
    ensures
        match r {
            Ok(n) => options_from(words_of(words@), no_options()) == Ok::<NewRequestView, Seq<char>>(n@),
            Err(m) => options_from(words_of(words@), no_options()) == Err::<NewRequestView, Seq<char>>(m@),
        },
{
    let ghost ws = words_of(words@);
    let mut acc = NewRequest {
        key_path: None,
        names: Vec::new(),
        alt_names: Vec::new(),
        detach: false,
        ignored: Vec::new(),
    };
    proof {
        assert(acc@.names =~= Seq::<(NameKind, Seq<char>)>::empty());
        assert(acc@.alt_names =~= Seq::<AltNameView>::empty());
        assert(acc@.ignored =~= Seq::<Seq<char>>::empty());
        assert(ws.subrange(0, ws.len() as int) =~= ws);
    }
    let mut i: usize = 0;
    while i < words.len()
        invariant
            ws == words_of(words@),
            i <= words@.len(),
            options_from(ws.subrange(i as int, ws.len() as int), acc@) == options_from(
                ws,
                no_options(),
            ),
        decreases words@.len() - i,
    {
        let ghost rest = ws.subrange(i as int, ws.len() as int);
        let ghost before = acc@;
        let f = flag(words[i].as_str());
        proof {
            assert(rest[0] == words@[i as int]@);
            assert(rest.drop_first() =~= ws.subrange(i + 1, ws.len() as int));
        }
        match f {
            Flag::Detach => {
                acc.detach = true;
                i = i + 1;
            },
            Flag::Other => {
                let w = words[i].clone();
                proof {
                    assert(words_of(acc.ignored@.push(w)) =~= words_of(acc.ignored@).push(w@));
                }
                acc.ignored.push(w);
                i = i + 1;
            },
            _ => {
                if i + 1 >= words.len() {
                    let mut m = String::from_str("Expected argument after ");
                    m.append(words[i].as_str());
                    return Err(m);
                }
                let v = words[i + 1].clone();
                proof {
                    assert(rest[1] == v@);
                    assert(rest.subrange(2, rest.len() as int) =~= ws.subrange(i + 2, ws.len() as int));
                }
                match f {
                    Flag::Key => {
                        acc.key_path = Some(v);
                    },
                    Flag::Name(kind) => {
                        proof {
                            assert(acc.names@.push((kind, v)).map_values(
                                |p: (NameKind, String)| (p.0, p.1@),
                            ) =~= acc@.names.push((kind, v@)));
                        }
                        acc.names.push((kind, v));
                    },
                    Flag::Dns => {
                        let a = AltName::Dns(v);
                        proof {
                            assert(acc.alt_names@.push(a).map_values(|a: AltName| a@)
                                =~= acc@.alt_names.push(a@));
                        }
                        acc.alt_names.push(a);
                    },
                    _ => {
                        let a = AltName::Ip(v);
                        proof {
                            assert(acc.alt_names@.push(a).map_values(|a: AltName| a@)
                                =~= acc@.alt_names.push(a@));
                        }
                        acc.alt_names.push(a);
                    },
                }
                i = i + 2;
            },
        }
    }
    proof {
        assert(ws.subrange(i as int, ws.len() as int) =~= Seq::<Seq<char>>::empty());
    }
    Ok(acc)
}

/// What the first word of a console line asks for.
#[derive(PartialEq, Eq, Structural, Clone, Copy, Debug)]
pub enum Word {
    Echo,
    Challenge,
    Request,
    Exit,
    Other,
}

/// The meaning of the first word of a line.
pub open spec fn word_of(w: Seq<char>) -> Word {
    if w == "echo"@ {
        Word::Echo
    } else if w == "challenge"@ {
        Word::Challenge
    } else if w == "request"@ {
        Word::Request
    } else if w == "exit"@ || w == "quit"@ {
        Word::Exit
    } else {
        Word::Other
    }
}

/// What follows `request`.
#[derive(PartialEq, Eq, Structural, Clone, Copy, Debug)]
pub enum RequestWord {
    Submit,
    New,
    Await,
    Other,
}

/// The meaning of the word after `request`.
pub open spec fn request_word_of(w: Seq<char>) -> RequestWord {
    if w == "submit"@ {
        RequestWord::Submit
    } else if w == "new"@ {
        RequestWord::New
    } else if w == "await"@ {
        RequestWord::Await
    } else {
        RequestWord::Other
    }
}

/// A console command.
#[derive(Debug)]
pub enum Command {
    /// A blank line.
    Empty,
    /// Print `text`.
    Echo { text: String },
    /// The challenges of these jobs passed.
    ChallengePass { serials: Vec<u64> },
    /// Submit the requests in these files.
    Submit { paths: Vec<String> },
    /// Build a request and submit it.
    New(NewRequest),
    /// Wait for the certificates of these aliases.
    Await { aliases: Vec<String> },
    /// Leave the console.
    Exit,
}

/// The message for a line whose shape is wrong.
pub open spec fn invalid_syntax() -> Seq<char> {
    "Invalid Syntax"@
}

/// The message for an unknown first word.
pub open spec fn unknown_command(w: Seq<char>) -> Seq<char> {
    "'"@ + w + "' is not a recognised command"@
}

/// The words after the first `k`.
pub open spec fn after(ws: Seq<Seq<char>>, k: int) -> Seq<Seq<char>> {
    ws.subrange(if k <= ws.len() { k } else { ws.len() as int }, ws.len() as int)
}

/// Reads a console line, split into words.
pub fn parse_command(words: &Vec<String>) -> (r: Result<Command, String>)
    ensures
        ({
            let ws = words_of(words@);
            &&& ws.len() == 0 ==> (r matches Ok(Command::Empty))
            &&& ws.len() > 0 ==> match word_of(ws[0]) {
                Word::Echo => r matches Ok(Command::Echo { text }) && text@ == echo_of(after(ws, 1)),
                Word::Challenge => if ws.len() > 1 && ws[1] == "pass"@ {
                    r matches Ok(Command::ChallengePass { serials }) && serials@ == leading_serials(
                        after(ws, 2),
                    )
                } else {
                    r matches Err(m) && m@ == invalid_syntax()
                },
                Word::Request => if ws.len() > 1 {
                    match request_word_of(ws[1]) {
                        RequestWord::Submit => r matches Ok(Command::Submit { paths }) && words_of(
                            paths@,
                        ) == after(ws, 2),
                        RequestWord::New => match r {
                            Ok(Command::New(n)) => options_from(after(ws, 2), no_options()) == Ok::<
                                NewRequestView,
                                Seq<char>,
                            >(n@),
                            Err(m) => options_from(after(ws, 2), no_options()) == Err::<
                                NewRequestView,
                                Seq<char>,
                            >(m@),
                            _ => false,
                        },
                        RequestWord::Await => r matches Ok(Command::Await { aliases }) && words_of(
                            aliases@,
                        ) == after(ws, 2),
                        RequestWord::Other => r matches Err(m) && m@ == invalid_syntax(),
                    }
                } else {
                    r matches Err(m) && m@ == invalid_syntax()
                },
                Word::Exit => r matches Ok(Command::Exit),
                Word::Other => r matches Err(m) && m@ == unknown_command(ws[0]),
            }
        }),
{
    let ghost ws = words_of(words@);
    if words.len() == 0 {
        return Ok(Command::Empty);
    }
    proof {
        assert(ws[0] == words@[0]@);
    }
    let first = words[0].as_str();
    if text_eq(first, "echo") {
        let rest = words_from(words, 1);
        return Ok(Command::Echo { text: echo(&rest) });
    }
    if text_eq(first, "challenge") {
        if words.len() > 1 && text_eq(words[1].as_str(), "pass") {
            let rest = words_from(words, 2);
            return Ok(Command::ChallengePass { serials: serials_from(&rest) });
        }
        return Err(String::from_str("Invalid Syntax"));
    }
    if text_eq(first, "request") {
        if words.len() < 2 {
            return Err(String::from_str("Invalid Syntax"));
        }
        proof {
            assert(ws[1] == words@[1]@);
        }
        let second = words[1].as_str();
        let rest = words_from(words, 2);
        if text_eq(second, "submit") {
            return Ok(Command::Submit { paths: rest });
        }
        if text_eq(second, "new") {
            return match parse_new_request(&rest) {
                Ok(n) => Ok(Command::New(n)),
                Err(m) => Err(m),
            };
        }
        if text_eq(second, "await") {
            return Ok(Command::Await { aliases: rest });
        }
        return Err(String::from_str("Invalid Syntax"));
    }
    if text_eq(first, "exit") || text_eq(first, "quit") {
        return Ok(Command::Exit);
    }
    let mut m = String::from_str("'");
    m.append(first);
    m.append("' is not a recognised command");
    Err(m)
}

/// The aliases of `ws` other than `a`, in order.
pub open spec fn without(ws: Seq<Seq<char>>, a: Seq<char>) -> Seq<Seq<char>>
    decreases ws.len(),
{
    if ws.len() == 0 {
        ws
    } else if ws.last() == a {
        without(ws.drop_last(), a)
    } else {
        without(ws.drop_last(), a).push(ws.last())
    }
}

/// What a change of a producer's record meant to a console that waits.
#[derive(PartialEq, Eq, Structural, Clone, Copy, Debug)]
pub enum AwaitStep {
    /// The record is still pending; nothing changes.
    Ignored,
    /// A certificate arrived for an alias nobody waits for; nothing changes.
    Unexpected,
    /// A certificate arrived; other aliases are still awaited.
    Waiting,
    /// A certificate arrived and no alias is awaited any more.
    Done,
}

/// Takes the record `job` that a change notification pointed at, while the
/// aliases `waiting` are awaited and the certificates `got` were collected,
/// by client id.
pub fn await_step(waiting: &mut Vec<String>, got: &mut Vec<(u64, String)>, job: &ClientJob) -> (r:
    AwaitStep)
    ensures
        job.status is Pending ==> r == AwaitStep::Ignored && final(waiting)@ == old(waiting)@
            && final(got)@ == old(got)@,
        job.status is Success && !words_of(old(waiting)@).contains(job.alias@) ==> r
            == AwaitStep::Unexpected && final(waiting)@ == old(waiting)@ && final(got)@ == old(
            got,
        )@,
        job.status is Success && words_of(old(waiting)@).contains(
            job.alias@,
        ) ==> {
            &&& words_of(final(waiting)@) == without(words_of(old(waiting)@), job.alias@)
            &&& final(got)@.len() == old(got)@.len() + 1
            &&& final(got)@.subrange(0, old(got)@.len() as int) == old(got)@
            &&& final(got)@.last().0 == job.client_id
            &&& job.status@ == (StatusView::Success { certificate: final(got)@.last().1@ })
            &&& (r == AwaitStep::Done) == (final(waiting)@.len() == 0)
            &&& (r == AwaitStep::Waiting) == (final(waiting)@.len() > 0)
        },
{
    let certificate = match &job.status {
        Status::Pending => return AwaitStep::Ignored,
        Status::Success { certificate } => certificate,
    };
    let ghost ws = words_of(waiting@);
    let ghost a = job.alias@;
    let mut kept: Vec<String> = Vec::new();
    let mut found = false;
    let mut i: usize = 0;
    while i < waiting.len()
        invariant
            ws == words_of(waiting@),
            a == job.alias@,
            i <= waiting@.len(),
            words_of(kept@) == without(ws.subrange(0, i as int), a),
            found == ws.subrange(0, i as int).contains(a),
        decreases waiting@.len() - i,
    {
        let ghost sub0 = ws.subrange(0, i as int);
        let ghost sub1 = ws.subrange(0, i + 1);
        proof {
            assert(sub1.drop_last() =~= sub0);
            assert(sub1.last() == waiting@[i as int]@);
        }
        if text_eq(waiting[i].as_str(), job.alias.as_str()) {
            proof {
                assert(sub1[i as int] == a);
            }
            found = true;
        } else {
            let w = waiting[i].clone();
            proof {
                assert(words_of(kept@.push(w)) =~= words_of(kept@).push(w@));
                if !found {
                    assert forall|j: int| 0 <= j < sub1.len() implies sub1[j] != a by {
                        if j < i {
                            assert(sub1[j] == sub0[j]);
                        }
                    }
                } else {
                    let j = choose|j: int| 0 <= j < sub0.len() && sub0[j] == a;
                    assert(sub1[j] == a);
                }
            }
            kept.push(w);
        }
        i = i + 1;
    }
    proof {
        assert(ws.subrange(0, waiting@.len() as int) =~= ws);
    }
    if !found {
        return AwaitStep::Unexpected;
    }
    *waiting = kept;
    got.push((job.client_id, certificate.clone()));
    proof {
        assert(got@.subrange(0, got@.len() - 1) =~= old(got)@);
    }
    if waiting.len() == 0 {
        AwaitStep::Done
    } else {
        AwaitStep::Waiting
    }
}

} // verus!
