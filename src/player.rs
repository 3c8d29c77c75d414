use vstd::prelude::*;

verus! {

/// The volume that a new player starts at, in tenths of full scale.
pub const DEFAULT_VOLUME: u8 = 5;

/// Full scale, in tenths.
pub const MAX_VOLUME: u8 = 10;

/// A key as the control loop sees it: a character, or anything else.
#[derive(Clone, Copy, Debug, PartialEq, Eq, Structural)]
pub enum Key {
    Char(char),
    Other,
}

/// What the caller must do to the audio output after a key.
#[derive(Clone, Copy, Debug, PartialEq, Eq, Structural)]
pub enum Action {
    /// Stop reading keys; the player is no longer running.
    Quit,
    /// Set the output volume to this many tenths of full scale.
    SetVolume(u8),
    /// Resume playback.
    Resume,
    /// Pause playback.
    Pause,
    /// Open and decode the current file, and append it to the output queue.
    Enqueue,
    /// Nothing to do.
    Idle,
}

/// The player: the file it plays, the volume and pause state it has set
/// on the output, and whether the control loop still runs.
#[derive(Debug)]
pub struct App {
    pub current: String,
    pub volume: u8,
    pub paused: bool,
    pub running: bool,
}

/// The part of the player's state that keys change.
pub struct Status {
    pub volume: int,
    pub paused: bool,
    pub running: bool,
}

impl App {
    pub open spec fn status(&self) -> Status {
        Status { volume: self.volume as int, paused: self.paused, running: self.running }
    }

    /// The volume never leaves the range from silent to full scale.
    pub open spec fn wf(&self) -> bool {
        self.volume <= MAX_VOLUME
    }

    /// A player for `current`, running, not paused, at the default volume.
    pub fn new(current: String) -> (r: App)
        ensures
            r.current@ == current@,
            r.volume == DEFAULT_VOLUME,
            !r.paused,
            r.running,
            r.wf(),
    {
        App { current, volume: DEFAULT_VOLUME, paused: false, running: true }
    }

    /// A player for the file named by the first argument after the program's
    /// own name, or `None` when there is no such argument.
    pub fn from_args(args: &Vec<String>) -> (r: Option<App>)
        ensures
            args@.len() < 2 ==> r is None,
            args@.len() >= 2 ==> (r matches Some(app) && app.current@ == args@[1]@
                && app.volume == DEFAULT_VOLUME && !app.paused && app.running),
    {
        if args.len() < 2 {
            None
        } else {
            Some(App::new(args[1].clone()))
        }
    }

    /// Marks the player as no longer running.
    pub fn shutdown(&mut self)
        ensures
            !final(self).running,
            final(self).current == old(self).current,
            final(self).volume == old(self).volume,
            final(self).paused == old(self).paused,
    {
        self.running = false;
    }
}

/// The state after `key`, with what the caller must do for it.
pub open spec fn step(s: Status, key: Key) -> (Status, Action) {
    match key {
        Key::Char('q') => (Status { running: false, ..s }, Action::Quit),
        Key::Char('+') => if s.volume < MAX_VOLUME {
            (Status { volume: s.volume + 1, ..s }, Action::SetVolume((s.volume + 1) as u8))
        } else {
            (s, Action::Idle)
        },
        Key::Char('-') => if s.volume > 0 {
            (Status { volume: s.volume - 1, ..s }, Action::SetVolume((s.volume - 1) as u8))
        } else {
            (s, Action::Idle)
        },
        Key::Char(' ') => if s.paused {
            (Status { paused: false, ..s }, Action::Resume)
        } else {
            (Status { paused: true, ..s }, Action::Pause)
        },
        Key::Char('p') => (s, Action::Enqueue),
        _ => (s, Action::Idle),
    }
}

pub open spec fn next(s: Status, key: Key) -> Status {
    step(s, key).0
}

/// Reading `keys` in order until a quit key, or until they run out: the
/// state afterwards, and the action for each key read.
pub open spec fn listen(s: Status, keys: Seq<Key>) -> (Status, Seq<Action>)
    decreases keys.len(),
{
    if keys.len() == 0 {
        (s, Seq::empty())
    } else {
        let (t, a) = step(s, keys[0]);
        if a == Action::Quit {
            (t, seq![a])
        } else {
            let (u, rest) = listen(t, keys.drop_first());
            (u, seq![a] + rest)
        }
    }
}

impl App {
    /// Applies one key to the player and says what the caller must do.
    pub fn handle_key(&mut self, key: Key) -> (r: Action)
        requires
            old(self).wf(),
        ensures
            final(self).wf(),
            (final(self).status(), r) == step(old(self).status(), key),
            final(self).current == old(self).current,
    {
        match key {
            Key::Char('q') => {
                self.shutdown();
                Action::Quit
            },
            Key::Char('+') => {
                if self.volume < MAX_VOLUME {
                    self.volume = self.volume + 1;
                    Action::SetVolume(self.volume)
                } else {
                    Action::Idle
                }
            },
            Key::Char('-') => {
                if self.volume > 0 {
                    self.volume = self.volume - 1;
                    Action::SetVolume(self.volume)
                } else {
                    Action::Idle
                }
            },
            Key::Char(' ') => {
                if self.paused {
                    self.paused = false;
                    Action::Resume
                } else {
                    self.paused = true;
                    Action::Pause
                }
            },
            Key::Char('p') => Action::Enqueue,
            _ => Action::Idle,
        }
    }

    /// Reads `keys` in order, applying each, and stops after a quit key.
    /// Returns the action for each key read, in order.
    pub fn listen_keys(&mut self, keys: &Vec<Key>) -> (r: Vec<Action>)
        requires
            old(self).wf(),
        ensures
            final(self).wf(),
            (final(self).status(), r@) == listen(old(self).status(), keys@),
            final(self).current == old(self).current,
    {
        let mut out: Vec<Action> = Vec::new();
        let mut i: usize = 0;
        assert(keys@.skip(0) =~= keys@);
        assert(out@ + listen(self.status(), keys@).1 =~= listen(self.status(), keys@).1);
        while i < keys.len()
            invariant
                i <= keys.len(),
                self.wf(),
                self.current == old(self).current,
                listen(old(self).status(), keys@) == (
                    listen(self.status(), keys@.skip(i as int)).0,
                    out@ + listen(self.status(), keys@.skip(i as int)).1,
                ),
            decreases keys.len() - i,
        {
            let a = self.handle_key(keys[i]);
            assert(keys@.skip(i as int).drop_first() =~= keys@.skip(i + 1));
            out.push(a);
            if a == Action::Quit {
                assert(out@ =~= out@.drop_last() + seq![a]);
                return out;
            }
            i = i + 1;
            assert(out@.drop_last() + (seq![a] + listen(self.status(), keys@.skip(i as int)).1)
                =~= out@ + listen(self.status(), keys@.skip(i as int)).1);
        }
        assert(keys@.skip(i as int) =~= Seq::<Key>::empty());
        assert(out@ + Seq::<Action>::empty() =~= out@);
        out
    }
}

/// However many keys are read, the volume stays between silent and full
/// scale.
pub proof fn lemma_volume_in_range(s: Status, keys: Seq<Key>)
    requires
        0 <= s.volume <= MAX_VOLUME,
    ensures
        0 <= listen(s, keys).0.volume <= MAX_VOLUME,
    decreases keys.len(),
{
    if keys.len() > 0 {
        let t = next(s, keys[0]);
        lemma_volume_in_range(t, keys.drop_first());
    }
}

/// A quit key, wherever it stands, stops the player: reading ends there,
/// its action is the last one, and no key after it has any effect.
pub proof fn lemma_quit_stops(s: Status, keys: Seq<Key>, i: int)
    requires
        0 <= i < keys.len(),
        keys[i] == Key::Char('q'),
    ensures
        !listen(s, keys).0.running,
        listen(s, keys).1.last() == Action::Quit,
        listen(s, keys) == listen(s, keys.take(i + 1)),
    decreases i,
{
    let (t, a) = step(s, keys[0]);
    let p = keys.take(i + 1);
    assert(p[0] == keys[0]);
    if a != Action::Quit {
        assert(i > 0);
        lemma_quit_stops(t, keys.drop_first(), i - 1);
        assert(p.drop_first() =~= keys.drop_first().take(i));
    }
}

/// Two presses of the space bar leave playback as it was.
pub proof fn lemma_pause_toggle_twice(s: Status)
    ensures
        next(next(s, Key::Char(' ')), Key::Char(' ')) == s,
        step(s, Key::Char(' ')).1 != step(next(s, Key::Char(' ')), Key::Char(' ')).1,
{
}

} // verus!
