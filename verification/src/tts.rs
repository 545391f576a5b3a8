//! The screen reader: when it listens to the element under the cursor, what it
//! speaks, and in which order its thread takes and gives back what it uses.

use vstd::prelude::*;

use crate::state::AppState;

verus! {

/// A change of focus, as it is sent to the thread of the screen reader.
#[derive(Debug, Clone, Copy, PartialEq, Eq, Structural)]
pub enum Msg {
    TextFocusGained,
    TextFocusLost,
}

/// Whether an element that holds text has the focus.
#[derive(Debug, Clone, Copy, PartialEq, Eq, Structural)]
pub enum TtsMode {
    Idle,
    TextFocus,
}

/// Whether a change of focus is of no interest: it happened in the program's
/// own windows. An element whose process is unknown counts as foreign.
pub fn ignores_focus(pid: Option<i32>, own_pid: i32) -> (r: bool)
    ensures
        r == (pid == Some(own_pid)),
{
    match pid {
        Some(pid) => pid == own_pid,
        None => false,
    }
}

/// The message for a change of focus to an element with or without text.
pub fn focus_message(has_text: bool) -> (r: Msg)
    ensures
        r == if has_text {
            Msg::TextFocusGained
        } else {
            Msg::TextFocusLost
        },
{
    if has_text {
        Msg::TextFocusGained
    } else {
        Msg::TextFocusLost
    }
}

/// The message that an event of focus sends, where it sends one.
pub open spec fn focus_sends(sender: Option<(Option<i32>, bool)>, own_pid: i32) -> Option<Msg> {
    match sender {
        None => None,
        Some((pid, has_text)) => if pid == Some(own_pid) {
            None
        } else if has_text {
            Some(Msg::TextFocusGained)
        } else {
            Some(Msg::TextFocusLost)
        },
    }
}

/// The message that an event of focus sends: none where it names no element or
/// one of the program's own windows.
///
/// `sender` holds the process of the element, where it is known, and whether
/// the element holds text.
pub fn focus_event(sender: Option<(Option<i32>, bool)>, own_pid: i32) -> (r: Option<Msg>)
    ensures
        r == focus_sends(sender, own_pid),
        r == match sender {
            None => None,
            Some((pid, has_text)) => if pid == Some(own_pid) {
                None
            } else if has_text {
                Some(Msg::TextFocusGained)
            } else {
                Some(Msg::TextFocusLost)
            },
        },
{
    match sender {
        None => None,
        Some((pid, has_text)) => {
            if ignores_focus(pid, own_pid) {
                None
            } else {
                Some(focus_message(has_text))
            }
        },
    }
}

/// How long the screen reader waits before each tick, in milliseconds.
pub const POLL_MS: u64 = 250;

/// What is spoken at the start, whether or not the screen reader is on.
pub fn greeting() -> (r: &'static str)
    ensures
        r@ == "clear-view ready"@,
{
    "clear-view ready"
}

/// Speak without waiting for the end.
pub const SPF_ASYNC: u32 = 1;

/// Cut off what is being spoken.
pub const SPF_PURGEBEFORESPEAK: u32 = 2;

/// How the voice is told to speak: never waiting, and cutting off what is being
/// spoken where `interrupt` says so. The name of an element interrupts; the
/// greeting at the start does not.
pub fn speech_flags(interrupt: bool) -> (r: u32)
    ensures
        r == if interrupt {
            SPF_ASYNC + SPF_PURGEBEFORESPEAK
        } else {
            SPF_ASYNC as int
        },
{
    if interrupt {
        SPF_ASYNC + SPF_PURGEBEFORESPEAK
    } else {
        SPF_ASYNC
    }
}

/// The mode that a message leads to.
pub open spec fn mode_of(msg: Msg) -> TtsMode {
    match msg {
        Msg::TextFocusGained => TtsMode::TextFocus,
        Msg::TextFocusLost => TtsMode::Idle,
    }
}

/// The mode after all of the messages.
pub open spec fn mode_after(mode: TtsMode, msgs: Seq<Msg>) -> TtsMode {
    if msgs.len() == 0 {
        mode
    } else {
        mode_of(msgs.last())
    }
}

/// What a tick does before it looks at the screen.
#[derive(Debug, Clone, Copy, PartialEq, Eq, Structural)]
pub struct TickPlan {
    pub set_volume: Option<u16>,
    pub set_rate: Option<i32>,
    /// Whether the element under the cursor is to be looked up.
    pub hover: bool,
}

/// What the screen reader remembers.
pub ghost struct ReaderView {
    pub mode: TtsMode,
    pub last_name: Seq<char>,
    pub last_volume: u32,
    pub last_rate: i32,
}

/// The loudness as the voice takes it.
pub open spec fn voice_volume(volume: u32) -> u16 {
    (volume as int % 0x1_0000) as u16
}

/// The loudness as the voice takes it.
pub fn to_voice_volume(volume: u32) -> (r: u16)
    ensures
        r == voice_volume(volume),
        volume <= u16::MAX ==> r == volume,
{
    assert(volume as u16 == volume % 0x1_0000) by (bit_vector);
    volume as u16
}

impl ReaderView {
    /// What a tick does first, given the settings.
    pub open spec fn plan(self, settings: AppState) -> TickPlan {
        if !settings.tts_enabled {
            TickPlan { set_volume: None, set_rate: None, hover: false }
        } else {
            TickPlan {
                set_volume: if settings.tts_volume != self.last_volume {
                    Some(voice_volume(settings.tts_volume))
                } else {
                    None
                },
                set_rate: if settings.tts_rate != self.last_rate {
                    Some(settings.tts_rate)
                } else {
                    None
                },
                hover: settings.tts_hover_enabled && self.mode == TtsMode::Idle,
            }
        }
    }

    /// What is remembered once the plan is carried out.
    pub open spec fn planned(self, settings: AppState) -> ReaderView {
        if !settings.tts_enabled {
            self
        } else {
            ReaderView {
                last_volume: settings.tts_volume,
                last_rate: settings.tts_rate,
                ..self
            }
        }
    }

    /// Whether the name of the element under the cursor is spoken: it is new
    /// and not empty.
    pub open spec fn speaks(self, name: Option<Seq<char>>) -> bool {
        name matches Some(n) && n.len() > 0 && n != self.last_name
    }

    /// What is remembered after the element under the cursor was looked up.
    pub open spec fn heard(self, name: Option<Seq<char>>) -> ReaderView {
        if self.speaks(name) {
            ReaderView { last_name: name->0, ..self }
        } else {
            self
        }
    }
}

/// The memory of the screen reader.
pub struct Reader {
    pub mode: TtsMode,
    /// The name that was spoken last.
    pub last_name: String,
    /// The loudness that the voice was set to last.
    pub last_volume: u32,
    /// The pace that the voice was set to last.
    pub last_rate: i32,
}

/// The name, where there is one.
pub open spec fn name_view(name: Option<String>) -> Option<Seq<char>> {
    match name {
        Some(n) => Some(n@),
        None => None,
    }
}

impl View for Reader {
    type V = ReaderView;

    open spec fn view(&self) -> ReaderView {
        ReaderView {
            mode: self.mode,
            last_name: self.last_name@,
            last_volume: self.last_volume,
            last_rate: self.last_rate,
        }
    }
}

impl Reader {
    /// Starts with the loudness and the pace of the settings, which the voice
    /// is to be set to, and with nothing spoken.
    pub fn new(settings: &AppState) -> (r: (Reader, TickPlan))
        ensures
            r.0@ == (ReaderView {
                mode: TtsMode::Idle,
                last_name: Seq::empty(),
                last_volume: settings.tts_volume,
                last_rate: settings.tts_rate,
            }),
            r.1 == (TickPlan {
                set_volume: Some(voice_volume(settings.tts_volume)),
                set_rate: Some(settings.tts_rate),
                hover: false,
            }),
    {
        let reader = Reader {
            mode: TtsMode::Idle,
            last_name: String::new(),
            last_volume: settings.tts_volume,
            last_rate: settings.tts_rate,
        };
        let plan = TickPlan {
            set_volume: Some(to_voice_volume(settings.tts_volume)),
            set_rate: Some(settings.tts_rate),
            hover: false,
        };
        (reader, plan)
    }

    /// Takes all changes of focus that have come in.
    pub fn drain(&mut self, msgs: &Vec<Msg>)
        ensures
            final(self)@ == (ReaderView { mode: mode_after(old(self).mode, msgs@), ..old(self)@ }),
    {
        let mut i: usize = 0;
        while i < msgs.len()
            invariant
                i <= msgs@.len(),
                self@ == (ReaderView {
                    mode: mode_after(old(self).mode, msgs@.take(i as int)),
                    ..old(self)@
                }),
            decreases msgs@.len() - i,
        {
            match msgs[i] {
                Msg::TextFocusGained => {
                    self.mode = TtsMode::TextFocus;
                },
                Msg::TextFocusLost => {
                    self.mode = TtsMode::Idle;
                },
            }
            i = i + 1;
            assert(msgs@.take(i as int).last() == msgs@[i - 1]);
        }
        assert(msgs@.take(i as int) =~= msgs@);
    }

    /// Starts a tick: sets the voice where its settings have changed, and
    /// decides whether to look at the element under the cursor.
    pub fn begin_tick(&mut self, settings: &AppState) -> (r: TickPlan)
        ensures
            r == old(self)@.plan(*settings),
            final(self)@ == old(self)@.planned(*settings),
    {
        if !settings.tts_enabled {
            return TickPlan { set_volume: None, set_rate: None, hover: false };
        }
        let mut plan = TickPlan { set_volume: None, set_rate: None, hover: false };
        if settings.tts_volume != self.last_volume {
            plan.set_volume = Some(to_voice_volume(settings.tts_volume));
            self.last_volume = settings.tts_volume;
        }
        if settings.tts_rate != self.last_rate {
            plan.set_rate = Some(settings.tts_rate);
            self.last_rate = settings.tts_rate;
        }
        if settings.tts_hover_enabled && self.mode == TtsMode::Idle {
            plan.hover = true;
        }
        plan
    }

    /// Takes the name of the element under the cursor, where it could be
    /// found, and returns it where it is to be spoken.
    pub fn hover(&mut self, name: Option<String>) -> (r: Option<String>)
        ensures
            name_view(r) == if old(self)@.speaks(name_view(name)) {
                name_view(name)
            } else {
                None
            },
            final(self)@ == old(self)@.heard(name_view(name)),
            name matches Some(n) && n@.len() > 0 && n@ != old(self).last_name@ ==> {
                &&& r matches Some(s) && s@ == name->0@
                &&& final(self).last_name@ == name->0@
            },
            !(name matches Some(n) && n@.len() > 0 && n@ != old(self).last_name@) ==> {
                &&& r is None
                &&& final(self)@ == old(self)@
            },
    {
        match name {
            Some(name) => {
                if name.as_str().is_empty() || name == self.last_name {
                    return None;
                }
                self.last_name = name.clone();
                Some(name)
            },
            None => None,
        }
    }
}

/// The mode after a series of messages, one at a time.
pub open spec fn step_by_step(mode: TtsMode, msgs: Seq<Msg>) -> TtsMode
    decreases msgs.len(),
{
    if msgs.len() == 0 {
        mode
    } else {
        let before = step_by_step(mode, msgs.drop_last());
        if before != mode_of(msgs.last()) {
            mode_of(msgs.last())
        } else {
            before
        }
    }
}

/// Only the last of the messages that have come in counts.
pub proof fn law_last_message_counts(mode: TtsMode, msgs: Seq<Msg>)
    ensures
        step_by_step(mode, msgs) == mode_after(mode, msgs),
    decreases msgs.len(),
{
    if msgs.len() > 0 {
        law_last_message_counts(mode, msgs.drop_last());
    }
}

/// While an element with text has the focus, nothing under the cursor is
/// looked up; once the focus has left text, it is again, as far as the settings
/// want it.
pub proof fn law_hover_pauses_in_text(reader: ReaderView, msgs: Seq<Msg>, settings: AppState)
    requires
        msgs.len() > 0,
    ensures
        ({
            let plan = ReaderView { mode: mode_after(reader.mode, msgs), ..reader }.plan(settings);
            &&& msgs.last() == Msg::TextFocusGained ==> !plan.hover
            &&& msgs.last() == Msg::TextFocusLost ==> plan.hover == (settings.tts_enabled
                && settings.tts_hover_enabled)
        }),
{
}

/// While the screen reader is off, a tick does nothing at all.
pub proof fn law_off_means_silence(reader: ReaderView, settings: AppState)
    requires
        !settings.tts_enabled,
    ensures
        reader.plan(settings) == (TickPlan { set_volume: None, set_rate: None, hover: false }),
        reader.planned(settings) == reader,
{
}

/// The voice is set only when its settings have changed: the next tick with
/// the same settings leaves it alone.
pub proof fn law_voice_set_once(reader: ReaderView, settings: AppState)
    ensures
        reader.planned(settings).plan(settings).set_volume is None,
        reader.planned(settings).plan(settings).set_rate is None,
        reader.planned(settings).planned(settings) == reader.planned(settings),
        settings.tts_enabled ==> reader.planned(settings).last_volume == settings.tts_volume
            && reader.planned(settings).last_rate == settings.tts_rate,
{
}

/// What is remembered after a series of look-ups.
pub open spec fn heard_all(reader: ReaderView, names: Seq<Option<Seq<char>>>) -> ReaderView
    decreases names.len(),
{
    if names.len() == 0 {
        reader
    } else {
        heard_all(reader, names.drop_last()).heard(names.last())
    }
}

/// What is spoken during a series of look-ups.
pub open spec fn spoken(reader: ReaderView, names: Seq<Option<Seq<char>>>) -> Seq<Seq<char>>
    decreases names.len(),
{
    if names.len() == 0 {
        seq![]
    } else {
        let before = spoken(reader, names.drop_last());
        if heard_all(reader, names.drop_last()).speaks(names.last()) {
            before.push(names.last()->0)
        } else {
            before
        }
    }
}

/// Whatever is under the cursor, no empty name is spoken, no name is spoken
/// twice in a row, and what is remembered is what was spoken last.
pub proof fn law_no_repetition(reader: ReaderView, names: Seq<Option<Seq<char>>>)
    ensures
        forall|i: int|
            0 <= i < spoken(reader, names).len() ==> (#[trigger] spoken(reader, names)[i]).len() > 0,
        forall|i: int, j: int|
            0 <= i < spoken(reader, names).len() && j == i + 1 && j < spoken(reader, names).len()
                ==> #[trigger] spoken(reader, names)[i] != #[trigger] spoken(reader, names)[j],
        spoken(reader, names).len() > 0 ==> heard_all(reader, names).last_name == spoken(
            reader,
            names,
        ).last() && spoken(reader, names)[0] != reader.last_name,
        spoken(reader, names).len() == 0 ==> heard_all(reader, names) == reader,
    decreases names.len(),
{
    if names.len() > 0 {
        let before = names.drop_last();
        law_no_repetition(reader, before);
        let s0 = spoken(reader, before);
        let s1 = spoken(reader, names);
        assert forall|i: int| 0 <= i < s0.len() implies #[trigger] s1[i] == s0[i] by {}
        assert forall|i: int, j: int|
            0 <= i < s1.len() && j == i + 1 && j < s1.len() implies #[trigger] s1[i]
            != #[trigger] s1[j] by {
            if j < s0.len() {
                assert(s0[i] != s0[j]);
            } else {
                assert(s1[i] == s0.last());
            }
        }
    }
}

/// What the thread of the screen reader does next.
#[derive(Debug, Clone, Copy, PartialEq, Eq, Structural)]
pub enum TtsStep {
    /// Initialise the component library for this thread.
    InitCom,
    CreateVoice,
    /// Set loudness and pace.
    SetVoice,
    /// Say that the program is ready.
    Announce,
    /// Open the service that knows the elements on the screen.
    CreateAutomation,
    /// Ask to be told of changes of focus.
    AddHandler,
    /// Wait and do one tick, unless the program is shutting down.
    Poll,
    RemoveHandler,
    DropHandler,
    DropAutomation,
    DropVoice,
    UninitCom,
    Stopped,
}

impl TtsStep {
    /// The step that follows. `ok` says whether this one succeeded; for `Poll`,
    /// whether the program is still running.
    pub open spec fn after(self, ok: bool) -> TtsStep {
        match self {
            TtsStep::InitCom => if ok {
                TtsStep::CreateVoice
            } else {
                TtsStep::Stopped
            },
            TtsStep::CreateVoice => if ok {
                TtsStep::SetVoice
            } else {
                TtsStep::UninitCom
            },
            TtsStep::SetVoice => TtsStep::Announce,
            TtsStep::Announce => TtsStep::CreateAutomation,
            TtsStep::CreateAutomation => if ok {
                TtsStep::AddHandler
            } else {
                TtsStep::DropVoice
            },
            TtsStep::AddHandler => TtsStep::Poll,
            TtsStep::Poll => if ok {
                TtsStep::Poll
            } else {
                TtsStep::RemoveHandler
            },
            TtsStep::RemoveHandler => TtsStep::DropHandler,
            TtsStep::DropHandler => TtsStep::DropAutomation,
            TtsStep::DropAutomation => TtsStep::DropVoice,
            TtsStep::DropVoice => TtsStep::UninitCom,
            TtsStep::UninitCom => TtsStep::Stopped,
            TtsStep::Stopped => TtsStep::Stopped,
        }
    }

    /// The step that follows. Without the library there is nothing to do;
    /// without a voice or without the service the thread gives back what it
    /// has; failing to speak or to be told of focus changes is no reason to
    /// stop.
    pub fn next(self, ok: bool) -> (r: TtsStep)
        ensures
            r == self.after(ok),
    {
        match self {
            TtsStep::InitCom => {
                if ok {
                    TtsStep::CreateVoice
                } else {
                    TtsStep::Stopped
                }
            },
            TtsStep::CreateVoice => {
                if ok {
                    TtsStep::SetVoice
                } else {
                    TtsStep::UninitCom
                }
            },
            TtsStep::SetVoice => TtsStep::Announce,
            TtsStep::Announce => TtsStep::CreateAutomation,
            TtsStep::CreateAutomation => {
                if ok {
                    TtsStep::AddHandler
                } else {
                    TtsStep::DropVoice
                }
            },
            TtsStep::AddHandler => TtsStep::Poll,
            TtsStep::Poll => {
                if ok {
                    TtsStep::Poll
                } else {
                    TtsStep::RemoveHandler
                }
            },
            TtsStep::RemoveHandler => TtsStep::DropHandler,
            TtsStep::DropHandler => TtsStep::DropAutomation,
            TtsStep::DropAutomation => TtsStep::DropVoice,
            TtsStep::DropVoice => TtsStep::UninitCom,
            TtsStep::UninitCom => TtsStep::Stopped,
            TtsStep::Stopped => TtsStep::Stopped,
        }
    }
}

/// What the thread holds.
pub ghost struct Held {
    pub com: bool,
    pub voice: bool,
    pub automation: bool,
    pub handler: bool,
}

/// What the thread holds after a step.
pub open spec fn hold(held: Held, step: TtsStep, ok: bool) -> Held {
    match step {
        TtsStep::InitCom => Held { com: ok, ..held },
        TtsStep::CreateVoice => Held { voice: ok, ..held },
        TtsStep::CreateAutomation => Held { automation: ok, ..held },
        TtsStep::AddHandler => Held { handler: true, ..held },
        TtsStep::DropHandler => Held { handler: false, ..held },
        TtsStep::DropAutomation => Held { automation: false, ..held },
        TtsStep::DropVoice => Held { voice: false, ..held },
        TtsStep::UninitCom => Held { com: false, ..held },
        _ => held,
    }
}

/// The step that is reached after steps with these outcomes.
pub open spec fn step_after(outcomes: Seq<bool>) -> TtsStep
    decreases outcomes.len(),
{
    if outcomes.len() == 0 {
        TtsStep::InitCom
    } else {
        step_after(outcomes.drop_last()).after(outcomes.last())
    }
}

/// What is held after steps with these outcomes.
pub open spec fn held_after(outcomes: Seq<bool>) -> Held
    decreases outcomes.len(),
{
    if outcomes.len() == 0 {
        Held { com: false, voice: false, automation: false, handler: false }
    } else {
        hold(
            held_after(outcomes.drop_last()),
            step_after(outcomes.drop_last()),
            outcomes.last(),
        )
    }
}

/// What is held when a step is up.
pub open spec fn held_at(step: TtsStep) -> Held {
    match step {
        TtsStep::InitCom | TtsStep::Stopped => Held {
            com: false,
            voice: false,
            automation: false,
            handler: false,
        },
        TtsStep::CreateVoice | TtsStep::UninitCom => Held {
            com: true,
            voice: false,
            automation: false,
            handler: false,
        },
        TtsStep::SetVoice
        | TtsStep::Announce
        | TtsStep::CreateAutomation
        | TtsStep::DropVoice => Held { com: true, voice: true, automation: false, handler: false },
        TtsStep::AddHandler | TtsStep::DropAutomation => Held {
            com: true,
            voice: true,
            automation: true,
            handler: false,
        },
        TtsStep::Poll | TtsStep::RemoveHandler | TtsStep::DropHandler => Held {
            com: true,
            voice: true,
            automation: true,
            handler: true,
        },
    }
}

/// However its steps turn out, the thread holds at each step what that step
/// needs: the component library is initialised before anything else, given
/// back only when nothing made with it is left, and once the thread has
/// stopped it holds nothing.
pub proof fn law_thread_releases_all(outcomes: Seq<bool>)
    ensures
        held_after(outcomes) == held_at(step_after(outcomes)),
        held_after(outcomes).voice || held_after(outcomes).automation || held_after(outcomes).handler
            ==> held_after(outcomes).com,
        step_after(outcomes) == TtsStep::UninitCom ==> !held_after(outcomes).voice && !held_after(
            outcomes,
        ).automation && !held_after(outcomes).handler,
        step_after(outcomes) == TtsStep::Stopped ==> !held_after(outcomes).com,
    decreases outcomes.len(),
{
    if outcomes.len() > 0 {
        law_thread_releases_all(outcomes.drop_last());
    }
}

/// How many steps are left once the program is shutting down.
pub open spec fn steps_left(step: TtsStep) -> nat {
    match step {
        TtsStep::Stopped => 0,
        TtsStep::UninitCom => 1,
        TtsStep::DropVoice => 2,
        TtsStep::DropAutomation => 3,
        TtsStep::DropHandler => 4,
        TtsStep::RemoveHandler => 5,
        TtsStep::Poll => 6,
        TtsStep::AddHandler => 7,
        TtsStep::CreateAutomation => 8,
        TtsStep::Announce => 9,
        TtsStep::SetVoice => 10,
        TtsStep::CreateVoice => 11,
        TtsStep::InitCom => 12,
    }
}

/// Every step brings the thread nearer to its end, except waiting while the
/// program is running: once the program shuts down, the thread ends.
pub proof fn law_thread_ends(step: TtsStep, ok: bool)
    requires
        step != TtsStep::Stopped,
    ensures
        steps_left(step.after(ok)) < steps_left(step) || step == TtsStep::Poll && ok,
        steps_left(step) == 0 <==> step == TtsStep::Stopped,
{
}

/// A name is spoken exactly where it is not empty and differs from the one that
/// was spoken last, and then it is the one that is remembered; a look-up that is
/// not spoken, or that found no name, changes nothing.
pub proof fn law_new_names_are_spoken(reader: ReaderView, name: Seq<char>)
    ensures
        reader.speaks(Some(name)) <==> name.len() > 0 && name != reader.last_name,
        !reader.speaks(None),
        reader.heard(None) == reader,
        name.len() > 0 ==> reader.heard(Some(name)) == (ReaderView { last_name: name, ..reader }),
        name.len() == 0 ==> reader.heard(Some(name)) == reader,
        !reader.heard(Some(name)).speaks(Some(name)),
{
}

/// Moving to and fro between two elements, each is spoken every time.
pub proof fn law_both_elements_spoken(reader: ReaderView, a: Seq<char>, b: Seq<char>)
    requires
        a.len() > 0,
        b.len() > 0,
        a != b,
    ensures
        reader.heard(Some(a)).speaks(Some(b)),
        reader.heard(Some(a)).heard(Some(b)).speaks(Some(a)),
        spoken(reader.heard(Some(b)), seq![Some(a), Some(b), Some(a)]) == seq![a, b, a],
{
    let start = reader.heard(Some(b));
    let s1 = seq![Some(a)];
    let s2 = seq![Some(a), Some(b)];
    let s3 = seq![Some(a), Some(b), Some(a)];
    assert(s3.drop_last() =~= s2);
    assert(s2.drop_last() =~= s1);
    assert(s1.drop_last() =~= Seq::<Option<Seq<char>>>::empty());
    reveal_with_fuel(spoken, 4);
    reveal_with_fuel(heard_all, 4);
    assert(spoken(start, s3) =~= seq![a, b, a]);
}

/// A change of focus decides the mode, whatever came before it: text gained
/// means text, text lost means none. Without one the mode stays.
pub proof fn law_focus_decides_mode(mode: TtsMode, msgs: Seq<Msg>)
    ensures
        mode_after(mode, msgs.push(Msg::TextFocusGained)) == TtsMode::TextFocus,
        mode_after(mode, msgs.push(Msg::TextFocusLost)) == TtsMode::Idle,
        mode_after(mode, Seq::empty()) == mode,
{
}

/// While the screen reader is on, a tick sets the loudness and the pace exactly
/// where they differ from what the voice was set to last, to the values of the
/// settings, and remembers them; the element under the cursor is looked up
/// exactly where that is switched on and no text has the focus.
pub proof fn law_tick_follows_settings(reader: ReaderView, settings: AppState)
    requires
        settings.tts_enabled,
    ensures
        ({
            let plan = reader.plan(settings);
            let after = reader.planned(settings);
            &&& plan.set_volume is Some <==> settings.tts_volume != reader.last_volume
            &&& plan.set_volume matches Some(v) ==> (v - settings.tts_volume) % 0x1_0000 == 0
            &&& plan.set_volume matches Some(v) ==> (settings.tts_volume <= 100 ==> v
                == settings.tts_volume)
            &&& plan.set_rate is Some <==> settings.tts_rate != reader.last_rate
            &&& plan.set_rate matches Some(v) ==> v == settings.tts_rate
            &&& plan.hover <==> settings.tts_hover_enabled && reader.mode != TtsMode::TextFocus
            &&& after.last_volume == settings.tts_volume
            &&& after.last_rate == settings.tts_rate
            &&& after.mode == reader.mode
            &&& after.last_name == reader.last_name
        }),
{
}

/// The voice takes the low half of the loudness, which is the loudness itself
/// where it fits.
pub proof fn law_voice_volume(volume: u32)
    ensures
        (voice_volume(volume) - volume) % 0x1_0000 == 0,
        volume < 0x1_0000 ==> voice_volume(volume) == volume,
{
}

/// A name is seen as its characters.
pub proof fn law_name_view(name: Option<String>)
    ensures
        name is None <==> name_view(name) is None,
        name matches Some(n) ==> name_view(name) == Some(n@),
{
}

/// What leads to each step of the thread: everything is taken in order, each
/// step only after the one before has succeeded where it can fail, and given
/// back in the opposite order from as far as the thread has come.
pub proof fn law_thread_order(step: TtsStep, ok: bool)
    ensures
        ({
            let next = step.after(ok);
            &&& next != TtsStep::InitCom
            &&& next == TtsStep::CreateVoice <==> step == TtsStep::InitCom && ok
            &&& next == TtsStep::SetVoice <==> step == TtsStep::CreateVoice && ok
            &&& next == TtsStep::Announce <==> step == TtsStep::SetVoice
            &&& next == TtsStep::CreateAutomation <==> step == TtsStep::Announce
            &&& next == TtsStep::AddHandler <==> step == TtsStep::CreateAutomation && ok
            &&& next == TtsStep::Poll <==> step == TtsStep::AddHandler || step == TtsStep::Poll && ok
            &&& next == TtsStep::RemoveHandler <==> step == TtsStep::Poll && !ok
            &&& next == TtsStep::DropHandler <==> step == TtsStep::RemoveHandler
            &&& next == TtsStep::DropAutomation <==> step == TtsStep::DropHandler
            &&& next == TtsStep::DropVoice <==> step == TtsStep::DropAutomation || step
                == TtsStep::CreateAutomation && !ok
            &&& next == TtsStep::UninitCom <==> step == TtsStep::DropVoice || step
                == TtsStep::CreateVoice && !ok
            &&& next == TtsStep::Stopped <==> step == TtsStep::UninitCom || step == TtsStep::Stopped
                || step == TtsStep::InitCom && !ok
        }),
{
}

/// A change of focus in another program, or in an unknown one, switches the mode
/// to whether the element holds text; one in the program's own windows, or
/// without an element, leaves the mode alone.
pub proof fn law_focus_events_reach_the_reader(
    mode: TtsMode,
    pid: Option<i32>,
    has_text: bool,
    own_pid: i32,
)
    ensures
        focus_sends(None, own_pid) is None,
        focus_sends(Some((pid, has_text)), own_pid) is None <==> pid == Some(own_pid),
        focus_sends(Some((pid, has_text)), own_pid) matches Some(msg) ==> (mode_after(
            mode,
            seq![msg],
        ) == TtsMode::TextFocus <==> has_text),
{
}

} // verus!
