//! The session engine: the focus mode, the three panels and the session,
//! with the decisions of one loop iteration. The loop itself, the terminal
//! and the serial transport stay with the caller, which performs each
//! `Effect` and hands back what came of it.
use vstd::prelude::*;
use vstd::string::*;
use crate::action::{Action, Mode};
use crate::command::{dispatch_outcome, parse_outcome, scan, tokens_of, Command};
use vstd::arithmetic::div_mod::lemma_small_mod;
use crate::components::{CommandInputComponent, ListComponent, ListKind};
use crate::text::{is_blank, is_white_space};
use crate::key::Key;
use crate::session::{lossy_text, rate_of, ReadOutcome, Session};

verus! {

/// Outside work that applying an action asks the caller to do.
#[derive(Debug)]
pub enum Effect {
    Nothing,
    /// Open this port at this rate, then report through `finish_open`.
    OpenPort(String, u32),
}

/// The whole interactive state.
#[derive(Debug)]
pub struct App<H> {
    should_quit: bool,
    mode: Mode,
    uart_list: ListComponent,
    rate_list: ListComponent,
    input: CommandInputComponent,
    session: Session<H>,
    last_error: Option<String>,
}

impl<H> App<H> {
    pub closed spec fn quit(&self) -> bool {
        self.should_quit
    }

    pub closed spec fn mode_of(&self) -> Mode {
        self.mode
    }

    pub closed spec fn ports(&self) -> ListComponent {
        self.uart_list
    }

    pub closed spec fn rates(&self) -> ListComponent {
        self.rate_list
    }

    pub closed spec fn line(&self) -> CommandInputComponent {
        self.input
    }

    pub closed spec fn sess(&self) -> Session<H> {
        self.session
    }

    pub closed spec fn error(&self) -> Option<Seq<char>> {
        match self.last_error {
            Some(e) => Some(e@),
            None => None,
        }
    }

    /// The command line's cursor is in range, and each list produces the
    /// selection action of its own kind.
    pub open spec fn wf(&self) -> bool {
        &&& self.line().wf()
        &&& self.ports().list_kind() == ListKind::PortSelection
        &&& self.rates().list_kind() == ListKind::RateSelection
    }

    /// Whether `key` may be handed to `process_key`: a character must still
    /// fit into the command line when that has focus.
    pub open spec fn accepts(&self, key: Key) -> bool {
        self.mode_of() == Mode::CommandInput && key is Char ==> self.line().editor().text().len()
            < usize::MAX
    }

    /// Routing a key: the panel of the current mode takes it and produces
    /// `r`; nothing else changes.
    pub open spec fn routed(pre: &Self, key: Key, post: &Self, r: Action) -> bool {
        &&& post.mode_of() == pre.mode_of()
        &&& post.quit() == pre.quit()
        &&& post.error() == pre.error()
        &&& post.sess() == pre.sess()
        &&& match pre.mode_of() {
            Mode::UartChoice => ListComponent::key_step(&pre.ports(), key, &post.ports(), r)
                && post.rates() == pre.rates() && post.line() == pre.line(),
            Mode::RateChoice => ListComponent::key_step(&pre.rates(), key, &post.rates(), r)
                && post.ports() == pre.ports() && post.line() == pre.line(),
            Mode::CommandInput => CommandInputComponent::key_step(
                &pre.line(),
                key,
                &post.line(),
                r,
            ) && post.ports() == pre.ports() && post.rates() == pre.rates(),
        }
    }

    /// Applying an action: `post` is the state after `a` was applied in
    /// `pre`, and `e` the outside work it asks for.
    pub open spec fn applied(pre: &Self, a: Action, post: &Self, e: Effect) -> bool {
        let s = pre.sess();
        &&& post.ports() == pre.ports()
        &&& post.rates() == pre.rates()
        &&& post.line() == pre.line()
        &&& post.sess().link() == s.link()
        &&& post.sess().received() == s.received()
        &&& post.quit() == (pre.quit() || a is Quit)
        &&& post.mode_of() == match a {
            Action::SwitchMode(m) => m,
            Action::SelectPort(_) => Mode::CommandInput,
            Action::SelectRate(_) => Mode::CommandInput,
            _ => pre.mode_of(),
        }
        &&& post.sess().port() == match a {
            Action::SelectPort(p) => p@,
            _ => s.port(),
        }
        &&& post.sess().rate() == match a {
            Action::SelectRate(v) => match rate_of(v@) {
                Some(b) => b,
                None => s.rate(),
            },
            _ => s.rate(),
        }
        &&& post.error() == match a {
            Action::Error(m) => Some(m@),
            _ => pre.error(),
        }
        &&& match e {
            Effect::OpenPort(p, b) => a is Open && p@ == s.port() && b == s.rate(),
            Effect::Nothing => !(a is Open),
        }
    }

    /// One key press: the cancel key returns focus to the command line
    /// without reaching any panel; any other key is routed and its action
    /// applied.
    pub open spec fn process_step(pre: &Self, key: Key, post: &Self, e: Effect) -> bool {
        if key == Key::Esc {
            Self::applied(pre, Action::SwitchMode(Mode::CommandInput), post, e)
        } else {
            exists|mid: Self, a: Action| #[trigger]
                Self::routed(pre, key, &mid, a) && Self::applied(&mid, a, post, e)
        }
    }

    /// The starting state: command line focused, the given ports and the
    /// two offered rates listed, nothing chosen or connected.
    pub fn new(ports: Vec<String>) -> (r: Self)
        ensures
            r.wf(),
            !r.quit(),
            r.mode_of() == Mode::CommandInput,
            r.error() is None,
            r.ports().list().entries() == ports@,
            r.ports().list().selection() == (if ports@.len() > 0 {
                Some(0usize)
            } else {
                None
            }),
            r.ports().list_kind() == ListKind::PortSelection,
            r.rates().list().selection() == Some(0usize),
            r.rates().list_kind() == ListKind::RateSelection,
            r.rates().list().entries().len() == 2,
            r.rates().list().entries()[0]@ == "9600"@,
            r.rates().list().entries()[1]@ == "115200"@,
            r.line().editor().text().len() == 0,
            r.sess().link() is None,
    {
        let rates = vec![String::from_str("9600"), String::from_str("115200")];
        App {
            should_quit: false,
            mode: Mode::CommandInput,
            uart_list: ListComponent::new(String::from_str("Port"), ports, ListKind::PortSelection),
            rate_list: ListComponent::new(
                String::from_str("Baud rate"),
                rates,
                ListKind::RateSelection,
            ),
            input: CommandInputComponent::new(),
            session: Session::new(),
            last_error: None,
        }
    }

    pub fn should_quit(&self) -> (r: bool)
        ensures
            r == self.quit(),
    {
        self.should_quit
    }

    pub fn mode(&self) -> (r: Mode)
        ensures
            r == self.mode_of(),
    {
        self.mode
    }

    pub fn session(&self) -> (r: &Session<H>)
        ensures
            *r == self.sess(),
    {
        &self.session
    }

    /// Records how far the receive pane is scrolled.
    pub fn set_scroll(&mut self, scroll: u16)
        requires
            old(self).wf(),
        ensures
            final(self).wf(),
            final(self).ports() == old(self).ports(),
            final(self).rates() == old(self).rates(),
            final(self).line() == old(self).line(),
            final(self).error() == old(self).error(),
            final(self).mode_of() == old(self).mode_of(),
            final(self).quit() == old(self).quit(),
            final(self).sess().port() == old(self).sess().port(),
            final(self).sess().rate() == old(self).sess().rate(),
            final(self).sess().link() == old(self).sess().link(),
            final(self).sess().received().text() == old(self).sess().received().text(),
            final(self).sess().received().scroll_offset() == scroll,
    {
        self.session.set_scroll(scroll);
    }

    /// Lends the live connection handle out for one read.
    pub fn connection_mut(&mut self) -> (r: Option<&mut H>)
        requires
            old(self).wf(),
        ensures
            final(self).wf(),
            final(self).ports() == old(self).ports(),
            final(self).rates() == old(self).rates(),
            final(self).line() == old(self).line(),
            final(self).error() == old(self).error(),
            final(self).mode_of() == old(self).mode_of(),
            final(self).quit() == old(self).quit(),
            final(self).sess().port() == old(self).sess().port(),
            final(self).sess().rate() == old(self).sess().rate(),
            final(self).sess().received() == old(self).sess().received(),
            match old(self).sess().link() {
                None => r is None && final(self).sess().link() is None,
                Some(h) => r is Some && *r.unwrap() == h && final(self).sess().link() == Some(
                    *final(r.unwrap()),
                ),
            },
    {
        self.session.connection_mut()
    }

    pub fn uart_list(&self) -> (r: &ListComponent)
        ensures
            *r == self.ports(),
    {
        &self.uart_list
    }

    pub fn rate_list(&self) -> (r: &ListComponent)
        ensures
            *r == self.rates(),
    {
        &self.rate_list
    }

    pub fn input(&self) -> (r: &CommandInputComponent)
        ensures
            *r == self.line(),
    {
        &self.input
    }

    pub fn last_error(&self) -> (r: Option<&str>)
        ensures
            match r {
                Some(m) => self.error() == Some(m@),
                None => self.error() is None,
            },
    {
        match &self.last_error {
            Some(e) => Some(e.as_str()),
            None => None,
        }
    }

    /// Replaces the listed ports with a fresh enumeration; the selection
    /// stays as it was.
    pub fn refresh_ports(&mut self, ports: Vec<String>)
        requires
            old(self).wf(),
        ensures
            final(self).wf(),
            final(self).ports().list().entries() == ports@,
            final(self).ports().list().selection() == old(self).ports().list().selection(),
            final(self).ports().list_kind() == old(self).ports().list_kind(),
            final(self).rates() == old(self).rates(),
            final(self).line() == old(self).line(),
            final(self).mode_of() == old(self).mode_of(),
            final(self).quit() == old(self).quit(),
            final(self).sess() == old(self).sess(),
            final(self).error() == old(self).error(),
    {
        self.uart_list.update_items(ports);
    }

    /// Gives focus to the panel of the current mode and takes it from the
    /// others.
    pub fn sync_focus(&mut self)
        requires
            old(self).wf(),
        ensures
            final(self).wf(),
            final(self).ports().list().focused() == (old(self).mode_of() == Mode::UartChoice),
            final(self).rates().list().focused() == (old(self).mode_of() == Mode::RateChoice),
            final(self).line().editor().focused() == (old(self).mode_of() == Mode::CommandInput),
            final(self).ports().list().entries() == old(self).ports().list().entries(),
            final(self).ports().list().selection() == old(self).ports().list().selection(),
            final(self).rates().list().entries() == old(self).rates().list().entries(),
            final(self).rates().list().selection() == old(self).rates().list().selection(),
            final(self).line().editor().text() == old(self).line().editor().text(),
            final(self).line().editor().cursor_pos() == old(self).line().editor().cursor_pos(),
            final(self).mode_of() == old(self).mode_of(),
            final(self).quit() == old(self).quit(),
            final(self).sess() == old(self).sess(),
            final(self).error() == old(self).error(),
    {
        let m = self.mode;
        self.uart_list.set_focus(m == Mode::UartChoice);
        self.rate_list.set_focus(m == Mode::RateChoice);
        self.input.set_focus(m == Mode::CommandInput);
    }

    /// Hands a key to the panel of the current mode.
    pub fn handle_key(&mut self, key: Key) -> (r: Action)
        requires
            old(self).wf(),
            old(self).accepts(key),
        ensures
            final(self).wf(),
            Self::routed(old(self), key, final(self), r),
    {
        match self.mode {
            Mode::UartChoice => self.uart_list.handle_key_events(key),
            Mode::RateChoice => self.rate_list.handle_key_events(key),
            Mode::CommandInput => self.input.handle_key_events(key),
        }
    }

    /// Applies an action to the state.
    pub fn update(&mut self, action: Action) -> (r: Effect)
        requires
            old(self).wf(),
        ensures
            final(self).wf(),
            Self::applied(old(self), action, final(self), r),
    {
        match action {
            Action::Quit => {
                self.should_quit = true;
            },
            Action::SwitchMode(mode) => {
                self.mode = mode;
            },
            Action::SelectPort(port) => {
                self.session.select_port(port);
                self.mode = Mode::CommandInput;
            },
            Action::SelectRate(rate) => {
                self.session.select_rate(rate.as_str());
                self.mode = Mode::CommandInput;
            },
            Action::Open => {
                let port = String::from_str(self.session.port_name());
                return Effect::OpenPort(port, self.session.baud_rate());
            },
            Action::Error(e) => {
                self.last_error = Some(e);
            },
            Action::Nothing => {},
        }
        Effect::Nothing
    }

    /// One key press of the loop: the cancel key switches to the command
    /// line; any other key goes to the focused panel and its action is
    /// applied.
    pub fn process_key(&mut self, key: Key) -> (r: Effect)
        requires
            old(self).wf(),
            old(self).accepts(key),
        ensures
            final(self).wf(),
            Self::process_step(old(self), key, final(self), r),
    {
        if key == Key::Esc {
            return self.update(Action::SwitchMode(Mode::CommandInput));
        }
        let action = self.handle_key(key);
        let ghost mid = *self;
        let ghost a = action;
        let r = self.update(action);
        assert(Self::routed(old(self), key, &mid, a) && Self::applied(&mid, a, self, r));
        r
    }

    /// Takes the result of an attempt to open the chosen port.
    pub fn finish_open(&mut self, opened: Option<H>)
        requires
            old(self).wf(),
        ensures
            final(self).wf(),
            final(self).sess().link() == opened,
            final(self).sess().port() == old(self).sess().port(),
            final(self).sess().rate() == old(self).sess().rate(),
            final(self).sess().received() == old(self).sess().received(),
            final(self).error() == old(self).error(),
            final(self).mode_of() == old(self).mode_of(),
            final(self).quit() == old(self).quit(),
            final(self).ports() == old(self).ports(),
            final(self).rates() == old(self).rates(),
            final(self).line() == old(self).line(),
    {
        self.session.finish_open(opened);
    }

    /// Takes the outcome of one read on the connection; returns whether the
    /// connection was dropped.
    pub fn apply_read(&mut self, outcome: ReadOutcome) -> (r: bool)
        requires
            old(self).wf(),
        ensures
            final(self).wf(),
            r == (old(self).sess().link() is Some && outcome is Failed),
            final(self).ports() == old(self).ports(),
            final(self).rates() == old(self).rates(),
            final(self).line() == old(self).line(),
            final(self).error() == old(self).error(),
            (match outcome {
                ReadOutcome::Data(b) => b@.len() == 0,
                _ => false,
            }) ==> final(self).sess().link() == old(self).sess().link() && final(self).sess().received() == old(self).sess().received(),
            final(self).sess().port() == old(self).sess().port(),
            final(self).sess().rate() == old(self).sess().rate(),
            old(self).sess().link() is None || outcome is TimedOut ==> final(self).sess().link()
                == old(self).sess().link() && final(self).sess().received() == old(self).sess().received(),
            old(self).sess().link() is Some ==> match outcome {
                ReadOutcome::Data(b) => final(self).sess().link() == old(self).sess().link()
                    && final(self).sess().received().text() == old(self).sess().received().text()
                    + lossy_text(b@),
                ReadOutcome::TimedOut => true,
                ReadOutcome::Failed => final(self).sess().link() is None
                    && final(self).sess().received() == old(self).sess().received(),
            },
            final(self).mode_of() == old(self).mode_of(),
            final(self).quit() == old(self).quit(),
    {
        self.session.apply_read(outcome)
    }
}

/// A line of one plain letter reads as the command that letter names.
proof fn lemma_one_letter_line(ch: char)
    requires
        !is_white_space(ch),
        ch != '"',
        ch != '\\',
    ensures
        parse_outcome(seq![ch]) == dispatch_outcome(seq![ch]),
{
    let s = seq![ch];
    assert(!is_blank(s));
    assert(scan(s, 1, seq![], seq![ch], false) == (Seq::<Seq<char>>::empty(), seq![ch], false));
    assert(scan(s, 0, seq![], seq![], false) == (Seq::<Seq<char>>::empty(), seq![ch], false)) by {
        assert(seq![].push(ch) =~= seq![ch]);
    }
    assert(tokens_of(s) =~= seq![seq![ch]]);
}

/// Two one-letter lines differ where their letters do.
proof fn lemma_letters_differ(a: char, b: char)
    requires
        a != b,
    ensures
        seq![a] != seq![b],
{
    assert(seq![a][0] != seq![b][0]);
}

/// The line `q` reads as the quit command.
pub proof fn lemma_q_is_quit()
    ensures
        parse_outcome(seq!['q']) == Ok::<Command, Seq<char>>(Command::Quit),
{
    lemma_one_letter_line('q');
    lemma_letters_differ('q', 'c');
}

/// The line `c` reads as the command that focuses the port list.
pub proof fn lemma_c_is_port_choice()
    ensures
        parse_outcome(seq!['c']) == Ok::<Command, Seq<char>>(Command::ModeToUartChoice),
{
    lemma_one_letter_line('c');
}

/// From an empty, focused command line: typing `c` and Enter focuses the
/// port list; there Down moves the selection from the first item to the
/// second, and Enter chooses that port and gives focus back to the command
/// line.
pub proof fn lemma_choose_second_port<H>(
    a0: App<H>,
    a1: App<H>,
    a2: App<H>,
    a3: App<H>,
    a4: App<H>,
    e1: Effect,
    e2: Effect,
    e3: Effect,
    e4: Effect,
)
    requires
        a0.wf(),
        a0.mode_of() == Mode::CommandInput,
        a0.line().editor().text().len() == 0,
        2 <= a0.ports().list().entries().len() <= usize::MAX,
        a0.ports().list().selection() == Some(0usize),
        App::process_step(&a0, Key::Char('c'), &a1, e1),
        App::process_step(&a1, Key::Enter, &a2, e2),
        App::process_step(&a2, Key::Down, &a3, e3),
        App::process_step(&a3, Key::Enter, &a4, e4),
    ensures
        a2.mode_of() == Mode::UartChoice,
        a3.ports().list().selection() == Some(1usize),
        a4.sess().port() == a0.ports().list().entries()[1]@,
        a4.mode_of() == Mode::CommandInput,
{
    let n = a0.ports().list().entries().len();
    let (m1, x1) = choose|m: App<H>, a: Action|
        #[trigger] App::routed(&a0, Key::Char('c'), &m, a) && App::applied(&m, a, &a1, e1);
    assert(x1 is Nothing);
    assert(a0.line().editor().cursor_pos() == 0);
    assert(a0.line().editor().text().insert(0, 'c') =~= seq!['c']);
    let (m2, x2) = choose|m: App<H>, a: Action|
        #[trigger] App::routed(&a1, Key::Enter, &m, a) && App::applied(&m, a, &a2, e2);
    lemma_c_is_port_choice();
    assert(x2 == Action::SwitchMode(Mode::UartChoice));
    let (m3, x3) = choose|m: App<H>, a: Action|
        #[trigger] App::routed(&a2, Key::Down, &m, a) && App::applied(&m, a, &a3, e3);
    assert(a2.ports() == a0.ports());
    lemma_small_mod(1, n);
    assert(x3 is Nothing);
    let (m4, x4) = choose|m: App<H>, a: Action|
        #[trigger] App::routed(&a3, Key::Enter, &m, a) && App::applied(&m, a, &a4, e4);
    assert(a3.ports().list().selected_entry() == Some(a0.ports().list().entries()[1]));
    assert(a3.ports().list_kind() == ListKind::PortSelection);
}

/// Whatever panel has focus, pressing the cancel key and then typing `q`
/// and Enter into an empty command line ends the session.
pub proof fn lemma_quit_from_any_mode<H>(
    a0: App<H>,
    a1: App<H>,
    a2: App<H>,
    a3: App<H>,
    e1: Effect,
    e2: Effect,
    e3: Effect,
)
    requires
        a0.wf(),
        a0.line().editor().text().len() == 0,
        App::process_step(&a0, Key::Esc, &a1, e1),
        App::process_step(&a1, Key::Char('q'), &a2, e2),
        App::process_step(&a2, Key::Enter, &a3, e3),
    ensures
        a3.quit(),
{
    lemma_quit_from_command_line(a1, a2, a3, e2, e3);
}

/// With the command line focused and empty, typing `q` and Enter ends the
/// session.
pub proof fn lemma_quit_from_command_line<H>(
    a1: App<H>,
    a2: App<H>,
    a3: App<H>,
    e2: Effect,
    e3: Effect,
)
    requires
        a1.wf(),
        a1.mode_of() == Mode::CommandInput,
        a1.line().editor().text().len() == 0,
        App::process_step(&a1, Key::Char('q'), &a2, e2),
        App::process_step(&a2, Key::Enter, &a3, e3),
    ensures
        a3.quit(),
{
    let (m1, x1) = choose|m: App<H>, a: Action|
        #[trigger] App::routed(&a1, Key::Char('q'), &m, a) && App::applied(&m, a, &a2, e2);
    assert(x1 is Nothing);
    assert(a1.line().editor().cursor_pos() == 0);
    assert(a1.line().editor().text().insert(0, 'q') =~= seq!['q']);
    let (m2, x2) = choose|m: App<H>, a: Action|
        #[trigger] App::routed(&a2, Key::Enter, &m, a) && App::applied(&m, a, &a3, e3);
    lemma_q_is_quit();
    assert(x2 is Quit);
}

} // verus!
