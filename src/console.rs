//! A line-command console over a deferred renderer: typed lines become draw
//! commands, which queue up until a render request writes them all.

use vstd::prelude::*;
use std::sync::mpsc::{Receiver, RecvError};
use crate::events::RawKey;
use crate::layout::Color;
use crate::term::{Shade, bg_code, bg_seq, clear_all, clear_all_seq, clear_rest, clear_rest_seq, fg_code, fg_seq, goto, goto_seq};

verus! {

/// What part of the screen a clear command clears.
#[derive(Debug, Clone, Copy, PartialEq, Eq, Structural)]
pub enum Clear {
    Left,
    Right,
    Line,
    All,
}

/// A drawing command.
#[derive(Debug)]
pub enum Command {
    Write(String),
    Goto(u16, u16),
    SetContext(u16, u16, u16, u16),
    Clear(Clear),
    SetFg(Color),
    SetBg(Color),
}

/// What the renderer receives.
#[derive(Debug)]
pub enum RenderEvent {
    /// Show a message on the status line at once.
    Debug(String),
    /// Write every queued command, in order.
    Render,
    /// Queue a command.
    Draw(Command),
}

/// The commands the renderer can write: clearing all or to the end of the
/// line, moving the cursor, writing text and setting the background.
pub open spec fn supported(c: Command) -> bool {
    match c {
        Command::Clear(Clear::All) | Command::Clear(Clear::Right) => true,
        Command::Goto(_, _) | Command::Write(_) | Command::SetBg(_) => true,
        _ => false,
    }
}

/// The text that a supported command writes.
pub open spec fn command_text(c: Command) -> Seq<char> {
    match c {
        Command::Clear(Clear::All) => clear_all_seq(),
        Command::Clear(_) => clear_rest_seq(),
        Command::Goto(x, y) => goto_seq(x, y),
        Command::Write(s) => s@,
        Command::SetBg(color) => bg_seq(Shade::Basic(color)),
        _ => Seq::empty(),
    }
}

/// The texts of `cs`, one after the other.
pub open spec fn commands_text(cs: Seq<Command>) -> Seq<char>
    decreases cs.len(),
{
    if cs.len() == 0 {
        Seq::empty()
    } else {
        commands_text(cs.drop_last()) + command_text(cs.last())
    }
}

/// The status line: `message` in black on white on row `rows`, the rest of
/// the row cleared.
pub open spec fn status_text(message: Seq<char>, rows: u16) -> Seq<char> {
    goto_seq(1, rows) + bg_seq(Shade::Basic(Color::White)) + fg_seq(Shade::Basic(Color::Black))
        + message + clear_rest_seq()
}

impl Command {
    pub fn is_supported(&self) -> (r: bool)
        ensures
            r == supported(*self),
    {
        match self {
            Command::Clear(Clear::All) | Command::Clear(Clear::Right) => true,
            Command::Goto(_, _) | Command::Write(_) | Command::SetBg(_) => true,
            _ => false,
        }
    }

    /// The text that this command writes.
    pub fn text(&self) -> (r: String)
        requires
            supported(*self),
        ensures
            r@ == command_text(*self),
    {
        match self {
            Command::Clear(Clear::All) => clear_all(),
            Command::Clear(_) => clear_rest(),
            Command::Goto(x, y) => goto(*x as usize, *y as usize),
            Command::Write(s) => s.clone(),
            Command::SetBg(color) => bg_code(Shade::Basic(*color)),
            _ => String::new(),
        }
    }
}

/// Receives values, in the order they were sent, from another thread.
#[verifier::reject_recursive_types(E)]
pub struct Listener<E> {
    r: Receiver<E>,
}

impl<E> Listener<E> {
    /// The next value, waiting for one; an error once the sender is gone.
    pub fn next(&self) -> Result<E, RecvError> {
        self.r.recv()
    }

    pub fn new(r: Receiver<E>) -> Listener<E> {
        Listener { r }
    }
}

/// The renderer's queue of commands waiting for a render request.
pub struct Renderer {
    queue: Vec<Command>,
}

impl Renderer {
    pub closed spec fn queued(&self) -> Seq<Command> {
        self.queue@
    }

    /// Every queued command can be written.
    pub open spec fn wf(&self) -> bool {
        forall|i: int| 0 <= i < self.queued().len() ==> supported(#[trigger] self.queued()[i])
    }

    pub fn new() -> (r: Renderer)
        ensures
            r.queued() == Seq::<Command>::empty(),
            r.wf(),
    {
        Renderer { queue: Vec::new() }
    }

    /// Writes every queued command, in order, and empties the queue.
    pub fn render(&mut self) -> (r: String)
        requires
            old(self).wf(),
        ensures
            r@ == commands_text(old(self).queued()),
            final(self).queued() == Seq::<Command>::empty(),
            final(self).wf(),
    {
        let mut r = String::new();
        let mut i: usize = 0;
        while i < self.queue.len()
            invariant
                self.wf(),
                i <= self.queue@.len(),
                r@ == commands_text(self.queue@.take(i as int)),
            decreases self.queue@.len() - i,
        {
            assert(supported(self.queued()[i as int]));
            let t = self.queue[i].text();
            r.append(t.as_str());
            proof {
                assert(self.queue@.take(i + 1).drop_last() =~= self.queue@.take(i as int));
            }
            i = i + 1;
        }
        proof {
            assert(self.queue@.take(self.queue@.len() as int) =~= self.queue@);
        }
        self.queue = Vec::new();
        r
    }

    /// Handles one event: a status message is written at once on row `rows`,
    /// a render request writes the queue, a draw command is queued and
    /// nothing is written.
    pub fn receive_event(&mut self, event: RenderEvent, rows: u16) -> (r: Option<String>)
        requires
            old(self).wf(),
            event matches RenderEvent::Draw(c) ==> supported(c),
        ensures
            final(self).wf(),
            event matches RenderEvent::Debug(m) ==> (r matches Some(t) && t@ == status_text(m@, rows))
                && final(self).queued() == old(self).queued(),
            event is Render ==> (r matches Some(t) && t@ == commands_text(old(self).queued()))
                && final(self).queued() == Seq::<Command>::empty(),
            event matches RenderEvent::Draw(c) ==> r is None && final(self).queued() == old(
                self,
            ).queued().push(c),
    {
        match event {
            RenderEvent::Debug(message) => {
                let mut t = goto(1, rows as usize);
                let bg = bg_code(Shade::Basic(Color::White));
                t.append(bg.as_str());
                let fg = fg_code(Shade::Basic(Color::Black));
                t.append(fg.as_str());
                t.append(message.as_str());
                let cr = clear_rest();
                t.append(cr.as_str());
                Some(t)
            },
            RenderEvent::Render => Some(self.render()),
            RenderEvent::Draw(command) => {
                let ghost before = self.queued();
                self.queue.push(command);
                assert forall|i: int| 0 <= i < self.queued().len() implies supported(
                    #[trigger] self.queued()[i],
                ) by {
                    if i < before.len() {
                        assert(self.queued()[i] == before[i]);
                    }
                }
                None
            },
        }
    }
}

/// The words of `s` between single spaces, empty words included: `s` with
/// every space taken as a separator.
pub open spec fn words(s: Seq<char>) -> Seq<Seq<char>>
    decreases s.len(),
{
    if s.len() == 0 {
        seq![Seq::empty()]
    } else {
        let w = words(s.drop_last());
        if s.last() == ' ' {
            w.push(Seq::empty())
        } else {
            w.update(w.len() - 1, w.last().push(s.last()))
        }
    }
}

proof fn lemma_words_not_empty(s: Seq<char>)
    ensures
        words(s).len() >= 1,
    decreases s.len(),
{
    if s.len() > 0 {
        lemma_words_not_empty(s.drop_last());
    }
}

/// What follows the first space of `s`; nothing when there is none.
pub open spec fn after_first_space(s: Seq<char>) -> Seq<char>
    decreases s.len(),
{
    if s.len() == 0 {
        Seq::empty()
    } else if s[0] == ' ' {
        s.drop_first()
    } else {
        after_first_space(s.drop_first())
    }
}

pub open spec fn is_digit(c: char) -> bool {
    '0' <= c && c <= '9'
}

/// The number that the decimal digits `s` write.
pub open spec fn digits_value(s: Seq<char>) -> int
    decreases s.len(),
{
    if s.len() == 0 {
        0
    } else {
        digits_value(s.drop_last()) * 10 + (s.last() as int - '0' as int)
    }
}

/// Decimal digits `d` read as a `u16`: one or more digits whose value is at
/// most 65535.
pub open spec fn digits_u16(d: Seq<char>) -> Option<u16> {
    if d.len() > 0 && (forall|i: int| 0 <= i < d.len() ==> is_digit(#[trigger] d[i]))
        && digits_value(d) <= u16::MAX {
        Some(digits_value(d) as u16)
    } else {
        None
    }
}

/// `s` read as a `u16`: an optional `+`, then one or more decimal digits
/// whose value is at most 65535.
pub open spec fn u16_of(s: Seq<char>) -> Option<u16> {
    if s.len() > 0 && s[0] == '+' {
        digits_u16(s.drop_first())
    } else {
        digits_u16(s)
    }
}

/// The colours that `set` knows by name. (`magenta` selects white.)
pub open spec fn color_named(name: Seq<char>) -> Option<Color> {
    if name == "cyan"@ {
        Some(Color::Cyan)
    } else if name == "blue"@ {
        Some(Color::Blue)
    } else if name == "magenta"@ {
        Some(Color::White)
    } else if name == "green"@ {
        Some(Color::Green)
    } else {
        None
    }
}

pub open spec fn is_warning(r: Result<RenderEvent, String>, m: Seq<char>) -> bool {
    r matches Err(w) && w@ == m
}

/// The outcome of reading a typed line: `text ...` writes the rest of the
/// line; `goto x y` moves the cursor; `clear` clears the screen; `render`
/// asks for the queue to be written; `set fg c` and `set bg c` set a colour;
/// anything else, a missing word or an unknown number, colour or target is
/// a warning.
pub open spec fn parsed_as(line: Seq<char>, r: Result<RenderEvent, String>) -> bool {
    let w = words(line);
    let cmd = w[0];
    if cmd == "text"@ {
        r matches Ok(RenderEvent::Draw(Command::Write(t))) && t@ == after_first_space(line)
    } else if cmd == "goto"@ {
        if w.len() < 3 {
            is_warning(r, "Not enough arguments"@)
        } else if u16_of(w[1]) is None {
            is_warning(r, w[1] + " is not a valid number."@)
        } else if u16_of(w[2]) is None {
            is_warning(r, w[2] + " is not a valid number."@)
        } else {
            r == Ok::<RenderEvent, String>(
                RenderEvent::Draw(Command::Goto(u16_of(w[1])->0, u16_of(w[2])->0)),
            )
        }
    } else if cmd == "clear"@ {
        r == Ok::<RenderEvent, String>(RenderEvent::Draw(Command::Clear(Clear::All)))
    } else if cmd == "render"@ {
        r == Ok::<RenderEvent, String>(RenderEvent::Render)
    } else if cmd == "set"@ {
        if w.len() < 2 {
            is_warning(r, "Not enough arguments"@)
        } else if w[1] == "fg"@ || w[1] == "bg"@ {
            if w.len() < 3 {
                is_warning(r, "Not enough arguments"@)
            } else if color_named(w[2]) is None {
                is_warning(r, w[2] + " is not a valid color."@)
            } else if w[1] == "fg"@ {
                r == Ok::<RenderEvent, String>(RenderEvent::Draw(Command::SetFg(color_named(w[2])->0)))
            } else {
                r == Ok::<RenderEvent, String>(RenderEvent::Draw(Command::SetBg(color_named(w[2])->0)))
            }
        } else {
            is_warning(r, w[1] + " is not a valid target."@)
        }
    } else {
        is_warning(r, cmd + " is not a valid command."@)
    }
}

/// Relies on std's `FromIterator<char>` for `String`: the characters in
/// order.
#[verifier::external_body]
fn string_of(chars: &Vec<char>) -> (r: String)
    ensures
        r@ == chars@,
{
    String::from_iter(chars.iter())
}

fn is_word(v: &Vec<char>, w: &str) -> (r: bool)
    ensures
        r == (v@ == w@),
{
    let len = w.unicode_len();
    if v.len() != len {
        return false;
    }
    let mut i: usize = 0;
    while i < len
        invariant
            len == w@.len(),
            v@.len() == len,
            i <= len,
            forall|j: int| 0 <= j < i ==> v@[j] == w@[j],
        decreases len - i,
    {
        if v[i] != w.get_char(i) {
            return false;
        }
        i = i + 1;
    }
    assert(v@ =~= w@);
    true
}

fn split_words(line: &Vec<char>) -> (r: Vec<Vec<char>>)
    ensures
        r@.len() == words(line@).len(),
        forall|i: int| 0 <= i < r@.len() ==> (#[trigger] r@[i])@ == words(line@)[i],
{
    let mut done: Vec<Vec<char>> = Vec::new();
    let mut current: Vec<char> = Vec::new();
    let mut i: usize = 0;
    while i < line.len()
        invariant
            i <= line@.len(),
            words(line@.take(i as int)).len() == done@.len() + 1,
            forall|j: int| 0 <= j < done@.len() ==> (#[trigger] done@[j])@ == words(line@.take(i as int))[j],
            current@ == words(line@.take(i as int))[done@.len() as int],
        decreases line@.len() - i,
    {
        let c = line[i];
        proof {
            assert(line@.take(i + 1).drop_last() =~= line@.take(i as int));
        }
        if c == ' ' {
            let finished = current;
            done.push(finished);
            current = Vec::new();
            proof {
                assert(current@ =~= Seq::<char>::empty());
            }
        } else {
            current.push(c);
        }
        i = i + 1;
    }
    done.push(current);
    proof {
        assert(line@.take(line@.len() as int) =~= line@);
    }
    done
}

fn rest_after_space(line: &Vec<char>) -> (r: Vec<char>)
    ensures
        r@ == after_first_space(line@),
{
    let mut i: usize = 0;
    assert(line@.subrange(0, line@.len() as int) =~= line@);
    while i < line.len() && line[i] != ' '
        invariant
            i <= line@.len(),
            forall|j: int| 0 <= j < i ==> line@[j] != ' ',
            after_first_space(line@) == after_first_space(line@.subrange(i as int, line@.len() as int)),
        decreases line@.len() - i,
    {
        proof {
            let s = line@.subrange(i as int, line@.len() as int);
            assert(s.drop_first() =~= line@.subrange(i + 1, line@.len() as int));
        }
        i = i + 1;
    }
    let mut r: Vec<char> = Vec::new();
    if i < line.len() {
        let mut k: usize = i + 1;
        while k < line.len()
            invariant
                i < line@.len(),
                i + 1 <= k <= line@.len(),
                r@ == line@.subrange(i + 1, k as int),
            decreases line@.len() - k,
        {
            r.push(line[k]);
            proof {
                assert(r@ =~= line@.subrange(i + 1, k + 1));
            }
            k = k + 1;
        }
        proof {
            let s = line@.subrange(i as int, line@.len() as int);
            assert(s.drop_first() =~= line@.subrange(i + 1, line@.len() as int));
        }
    } else {
        proof {
            assert(line@.subrange(i as int, line@.len() as int) =~= Seq::<char>::empty());
        }
    }
    r
}

proof fn lemma_digits_grow(d: Seq<char>, k: int)
    requires
        0 <= k <= d.len(),
        forall|i: int| 0 <= i < d.len() ==> is_digit(#[trigger] d[i]),
    ensures
        0 <= digits_value(d.take(k)) <= digits_value(d),
    decreases d.len() - k,
{
    if k < d.len() {
        lemma_digits_grow(d, k + 1);
        assert(d.take(k + 1).drop_last() =~= d.take(k));
        assert(is_digit(d[k]));
    } else {
        assert(d.take(k) =~= d);
        lemma_digits_nonnegative(d);
    }
}

proof fn lemma_digits_nonnegative(d: Seq<char>)
    requires
        forall|i: int| 0 <= i < d.len() ==> is_digit(#[trigger] d[i]),
    ensures
        0 <= digits_value(d),
    decreases d.len(),
{
    if d.len() > 0 {
        assert(is_digit(d[d.len() - 1]));
        lemma_digits_nonnegative(d.drop_last());
    }
}

/// `v` read as a `u16`, as `u16_of` says.
pub fn parse_u16(v: &Vec<char>) -> (r: Option<u16>)
    ensures
        r == u16_of(v@),
{
    let start: usize = if v.len() > 0 && v[0] == '+' {
        1
    } else {
        0
    };
    let ghost d = if v@.len() > 0 && v@[0] == '+' {
        v@.drop_first()
    } else {
        v@
    };
    assert(d =~= v@.subrange(start as int, v@.len() as int));
    assert(u16_of(v@) == digits_u16(d));
    if start == v.len() {
        return None;
    }
    let mut value: u32 = 0;
    let mut i: usize = start;
    while i < v.len()
        invariant
            d == v@.subrange(start as int, v@.len() as int),
            u16_of(v@) == digits_u16(d),
            start <= i <= v@.len(),
            forall|j: int| 0 <= j < i - start ==> is_digit(#[trigger] d[j]),
            value == digits_value(d.take(i - start)),
            value <= u16::MAX,
        decreases v@.len() - i,
    {
        let c = v[i];
        assert(d[i - start] == c);
        if !('0' <= c && c <= '9') {
            assert(!is_digit(d[i - start]));
            assert(!(forall|j: int| 0 <= j < d.len() ==> is_digit(#[trigger] d[j])));
            assert(digits_u16(d) is None);
            return None;
        }
        proof {
            assert(d.take(i - start + 1).drop_last() =~= d.take(i - start));
        }
        let next = value * 10 + (c as u32 - '0' as u32);
        if next > 65535 {
            proof {
                assert(d.take(i - start + 1).last() == c);
                assert(digits_value(d.take(i - start + 1)) == next);
                if forall|j: int| 0 <= j < d.len() ==> is_digit(#[trigger] d[j]) {
                    lemma_digits_grow(d, i - start + 1);
                    assert(digits_value(d) > u16::MAX);
                }
                assert(digits_u16(d) is None);
            }
            return None;
        }
        value = next;
        i = i + 1;
    }
    proof {
        assert(d.take(d.len() as int) =~= d);
    }
    Some(value as u16)
}

fn warning(word: &Vec<char>, tail: &str) -> (r: String)
    ensures
        r@ == word@ + tail@,
{
    let mut r = string_of(word);
    r.append(tail);
    r
}

fn named_color(v: &Vec<char>) -> (r: Option<Color>)
    ensures
        r == color_named(v@),
{
    if is_word(v, "cyan") {
        Some(Color::Cyan)
    } else if is_word(v, "blue") {
        Some(Color::Blue)
    } else if is_word(v, "magenta") {
        Some(Color::White)
    } else if is_word(v, "green") {
        Some(Color::Green)
    } else {
        None
    }
}

/// Reads a typed line: the event it asks for, or the warning it earns.
pub fn parse_line(line: &Vec<char>) -> (r: Result<RenderEvent, String>)
    ensures
        parsed_as(line@, r),
{
    let w = split_words(line);
    proof {
        lemma_words_not_empty(line@);
    }
    let cmd = &w[0];
    if is_word(cmd, "text") {
        let rest = rest_after_space(line);
        Ok(RenderEvent::Draw(Command::Write(string_of(&rest))))
    } else if is_word(cmd, "goto") {
        if w.len() < 3 {
            Err(String::from_str("Not enough arguments"))
        } else {
            match parse_u16(&w[1]) {
                None => Err(warning(&w[1], " is not a valid number.")),
                Some(x) => match parse_u16(&w[2]) {
                    None => Err(warning(&w[2], " is not a valid number.")),
                    Some(y) => Ok(RenderEvent::Draw(Command::Goto(x, y))),
                },
            }
        }
    } else if is_word(cmd, "clear") {
        Ok(RenderEvent::Draw(Command::Clear(Clear::All)))
    } else if is_word(cmd, "render") {
        Ok(RenderEvent::Render)
    } else if is_word(cmd, "set") {
        if w.len() < 2 {
            Err(String::from_str("Not enough arguments"))
        } else {
            let fg = is_word(&w[1], "fg");
            let bg = is_word(&w[1], "bg");
            if fg || bg {
                if w.len() < 3 {
                    Err(String::from_str("Not enough arguments"))
                } else {
                    match named_color(&w[2]) {
                        None => Err(warning(&w[2], " is not a valid color.")),
                        Some(c) => if fg {
                            Ok(RenderEvent::Draw(Command::SetFg(c)))
                        } else {
                            Ok(RenderEvent::Draw(Command::SetBg(c)))
                        },
                    }
                }
            } else {
                Err(warning(&w[1], " is not a valid target."))
            }
        }
    } else {
        Err(warning(cmd, " is not a valid command."))
    }
}

/// What a key press at the prompt leads to: whether to leave, the events to
/// send to the renderer in order, and a warning to log.
pub struct Reaction {
    pub exit: bool,
    pub events: Vec<RenderEvent>,
    pub warning: Option<String>,
}

/// The line being typed at the console.
pub struct Prompt {
    buffer: Vec<char>,
}

impl Prompt {
    pub closed spec fn line(&self) -> Seq<char> {
        self.buffer@
    }

    pub fn new() -> (r: Prompt)
        ensures
            r.line() == Seq::<char>::empty(),
    {
        Prompt { buffer: Vec::new() }
    }

    /// Reacts to key `k`: Escape leaves; Backspace deletes the last
    /// character; Enter reads the line, sends the event it asks for and
    /// empties the line; any other character is added to the line. After
    /// Enter or a character, the status line is sent the line as it now is.
    pub fn key(&mut self, k: RawKey) -> (r: Reaction)
        ensures
            k == RawKey::Esc ==> r.exit && r.events@.len() == 0 && r.warning is None
                && final(self).line() == old(self).line(),
            k == RawKey::Backspace ==> !r.exit && r.events@.len() == 0 && r.warning is None
                && final(self).line() == (if old(self).line().len() > 0 {
                old(self).line().drop_last()
            } else {
                old(self).line()
            }),
            k == RawKey::Other ==> !r.exit && r.events@.len() == 0 && r.warning is None
                && final(self).line() == old(self).line(),
            k == RawKey::Char('\n') ==> !r.exit && final(self).line() == Seq::<char>::empty()
                && r.events@.len() >= 1 && (r.events@.last() matches RenderEvent::Debug(m)
                && m@ == Seq::<char>::empty()),
            k == RawKey::Char('\n') ==> (r.events@.len() == 2 && r.warning is None && parsed_as(
                old(self).line(),
                Ok(r.events@[0]),
            )) || (r.events@.len() == 1 && (r.warning matches Some(w) && parsed_as(
                old(self).line(),
                Err(w),
            ))),
            forall|c: char|
                k == RawKey::Char(c) && c != '\n' ==> !r.exit && r.warning is None
                    && final(self).line() == old(self).line().push(c) && r.events@.len() == 1 && (
                r.events@[0] matches RenderEvent::Debug(m) && m@ == final(self).line()),
    {
        match k {
            RawKey::Esc => Reaction { exit: true, events: Vec::new(), warning: None },
            RawKey::Backspace => {
                self.buffer.pop();
                Reaction { exit: false, events: Vec::new(), warning: None }
            },
            RawKey::Char(c) => {
                if c == '\n' {
                    let parsed = parse_line(&self.buffer);
                    self.buffer = Vec::new();
                    let mut events: Vec<RenderEvent> = Vec::new();
                    let mut warning: Option<String> = None;
                    match parsed {
                        Ok(event) => events.push(event),
                        Err(w) => warning = Some(w),
                    }
                    events.push(RenderEvent::Debug(String::new()));
                    Reaction { exit: false, events, warning }
                } else {
                    self.buffer.push(c);
                    let status = string_of(&self.buffer);
                    Reaction { exit: false, events: vec![RenderEvent::Debug(status)], warning: None }
                }
            },
            RawKey::Other => Reaction { exit: false, events: Vec::new(), warning: None },
        }
    }
}

} // verus!
