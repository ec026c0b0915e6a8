use vstd::prelude::*;
use crate::font::{FontDescriptor, LoadFontError, LoaderFontData};
use crate::toolkit::add_font;
use egui::epaint::text::FontPriority;

verus! {

/// What the loader asks of its caller next.
pub enum LoadAction {
    /// Report whether anything exists at this path.
    CheckPath(String),
    /// Read the whole file at this path.
    ReadFile(String),
    /// Register `data` as a font named `name`, in a new family of that name
    /// at the lowest priority.
    Register { name: String, data: Vec<u8> },
    /// Loading is over, with this result.
    Finish(Result<(), LoadFontError>),
}

/// The outcome of the work that the last [`LoadAction`] asked for.
pub enum LoadEvent {
    PathChecked(bool),
    FileRead(Result<Vec<u8>, std::io::Error>),
    Registered,
}

/// Which event the loader waits for.
#[derive(Clone, Copy, PartialEq, Eq, Structural)]
pub enum Stage {
    Checking,
    Reading,
    Registering,
    Finished,
}

/// The mathematical value of a [`LoadEvent`].
pub enum Event {
    PathChecked(bool),
    FileRead(Result<Seq<u8>, std::io::Error>),
    Registered,
}

/// How a finished load ended.
pub enum Outcome {
    Loaded,
    NotFound(Seq<char>),
    Unreadable(Seq<char>, std::io::Error),
}

/// The mathematical value of a [`LoadAction`].
pub enum Request {
    CheckPath(Seq<char>),
    ReadFile(Seq<char>),
    Register(Seq<char>, Seq<u8>),
    Finish(Outcome),
}

/// The mathematical value of a [`FontLoader`]: the fonts not yet fully
/// registered (the first one is being worked on unless the stage is
/// `Finished` or `Registering`), the event awaited, and every registration handed out so far,
/// as (name, bytes), in order.
pub struct LoaderModel {
    pub pending: Seq<FontDescriptor>,
    pub stage: Stage,
    pub issued: Seq<(Seq<char>, Seq<u8>)>,
}

impl View for LoadEvent {
    type V = Event;

    open spec fn view(&self) -> Event {
        match self {
            LoadEvent::PathChecked(b) => Event::PathChecked(*b),
            LoadEvent::FileRead(Ok(d)) => Event::FileRead(Ok(d@)),
            LoadEvent::FileRead(Err(e)) => Event::FileRead(Err(*e)),
            LoadEvent::Registered => Event::Registered,
        }
    }
}

impl View for LoadAction {
    type V = Request;

    open spec fn view(&self) -> Request {
        match self {
            LoadAction::CheckPath(p) => Request::CheckPath(p@),
            LoadAction::ReadFile(p) => Request::ReadFile(p@),
            LoadAction::Register { name, data } => Request::Register(name@, data@),
            LoadAction::Finish(Ok(())) => Request::Finish(Outcome::Loaded),
            LoadAction::Finish(Err(LoadFontError::FileNotFound(p))) => Request::Finish(
                Outcome::NotFound(p@),
            ),
            LoadAction::Finish(Err(LoadFontError::FileReadError { path, source })) => Request::Finish(
                Outcome::Unreadable(path@, *source),
            ),
        }
    }
}

/// Whether a loader in state `m` can take event `e`.
pub open spec fn accepts(m: LoaderModel, e: Event) -> bool {
    match m.stage {
        Stage::Checking => e is PathChecked,
        Stage::Reading => e is FileRead,
        Stage::Registering => e is Registered,
        Stage::Finished => false,
    }
}

/// Move on to the first of `pending`, or finish successfully when none is left.
pub open spec fn ask_next(
    pending: Seq<FontDescriptor>,
    issued: Seq<(Seq<char>, Seq<u8>)>,
) -> (LoaderModel, Request) {
    if pending.len() == 0 {
        (LoaderModel { pending, stage: Stage::Finished, issued }, Request::Finish(Outcome::Loaded))
    } else {
        (
            LoaderModel { pending, stage: Stage::Checking, issued },
            Request::CheckPath(pending[0].path),
        )
    }
}

/// The state and first request of a loader given `fonts`.
pub open spec fn begin(fonts: Seq<FontDescriptor>) -> (LoaderModel, Request) {
    ask_next(fonts, Seq::empty())
}

/// The state and request that follow event `e` in state `m`, where
/// `accepts(m, e)`.
pub open spec fn next(m: LoaderModel, e: Event) -> (LoaderModel, Request) {
    let font = m.pending[0];
    match e {
        Event::PathChecked(true) => (
            LoaderModel { stage: Stage::Reading, ..m },
            Request::ReadFile(font.path),
        ),
        Event::PathChecked(false) => (
            LoaderModel { stage: Stage::Finished, ..m },
            Request::Finish(Outcome::NotFound(font.path)),
        ),
        Event::FileRead(Ok(data)) => (
            LoaderModel {
                pending: m.pending.drop_first(),
                stage: Stage::Registering,
                issued: m.issued.push((font.name, data)),
            },
            Request::Register(font.name, data),
        ),
        Event::FileRead(Err(err)) => (
            LoaderModel { stage: Stage::Finished, ..m },
            Request::Finish(Outcome::Unreadable(font.path, err)),
        ),
        Event::Registered => ask_next(m.pending, m.issued),
    }
}

/// What follows event `e` in state `m` when the registration that `e` may
/// lead to is carried out at once.
pub open spec fn next_registered(m: LoaderModel, e: Event) -> (LoaderModel, Request) {
    let (m1, r1) = next(m, e);
    if r1 is Register {
        next(m1, Event::Registered)
    } else {
        (m1, r1)
    }
}

/// Loads a list of fonts one after another, stopping at the first that is
/// missing or unreadable. Fonts registered before that stay registered.
pub struct FontLoader {
    /// The fonts still pending, last first: the one worked on is at the end.
    queue: Vec<LoaderFontData>,
    stage: Stage,
    issued: Ghost<Seq<(Seq<char>, Seq<u8>)>>,
}

impl View for FontLoader {
    type V = LoaderModel;

    closed spec fn view(&self) -> LoaderModel {
        LoaderModel {
            pending: Seq::new(
                self.queue@.len(),
                |i: int| self.queue@[self.queue@.len() - 1 - i]@,
            ),
            stage: self.stage,
            issued: self.issued@,
        }
    }
}

impl FontLoader {
    /// Whether the loader's fields agree with each other.
    pub closed spec fn wf(&self) -> bool {
        (self.stage == Stage::Checking || self.stage == Stage::Reading) ==> self.queue@.len() > 0
    }

    /// A loader for `fonts`, in their order, with the first thing it asks for.
    pub fn new(fonts: Vec<LoaderFontData>) -> (r: (FontLoader, LoadAction))
        ensures
            r.0.wf(),
            (r.0@, r.1@) == begin(fonts@.map_values(|f: LoaderFontData| f@)),
    {
        let ghost given = fonts@;
        let mut fonts = fonts;
        let mut queue: Vec<LoaderFontData> = Vec::new();
        while fonts.len() > 0
            invariant
                fonts@.len() + queue@.len() == given.len(),
                fonts@ == given.subrange(0, fonts@.len() as int),
                forall|i: int|
                    0 <= i < queue@.len() ==> #[trigger] queue@[i] == given[given.len() - 1 - i],
            decreases fonts@.len(),
        {
            let f = fonts.pop().unwrap();
            queue.push(f);
        }
        let mut loader = FontLoader { queue, stage: Stage::Finished, issued: Ghost(Seq::empty()) };
        assert(loader@.pending =~= given.map_values(|f: LoaderFontData| f@));
        let action = loader.ask_next();
        (loader, action)
    }

    /// Whether the loader can take `event` now: it waits for the outcome of
    /// the action it handed out last, and takes nothing once finished.
    pub fn accepts(&self, event: &LoadEvent) -> (r: bool)
        ensures
            r == accepts(self@, event@),
    {
        match (self.stage, event) {
            (Stage::Checking, LoadEvent::PathChecked(_)) => true,
            (Stage::Reading, LoadEvent::FileRead(_)) => true,
            (Stage::Registering, LoadEvent::Registered) => true,
            _ => false,
        }
    }

    /// Whether loading is over.
    pub fn is_finished(&self) -> (r: bool)
        ensures
            r == (self@.stage == Stage::Finished),
    {
        self.stage == Stage::Finished
    }

    /// Takes the outcome of the last action and says what to do next.
    pub fn advance(&mut self, event: LoadEvent) -> (r: LoadAction)
        requires
            old(self).wf(),
            accepts(old(self)@, event@),
        ensures
            final(self).wf(),
            (final(self)@, r@) == next(old(self)@, event@),
    {
        match event {
            LoadEvent::PathChecked(true) => {
                self.stage = Stage::Reading;
                let last = self.queue.len() - 1;
                LoadAction::ReadFile(self.queue[last].path.clone())
            },
            LoadEvent::PathChecked(false) => {
                self.stage = Stage::Finished;
                let last = self.queue.len() - 1;
                LoadAction::Finish(Err(LoadFontError::FileNotFound(self.queue[last].path.clone())))
            },
            LoadEvent::FileRead(Ok(data)) => {
                let font = self.queue.pop().unwrap();
                self.stage = Stage::Registering;
                assert(self@.pending =~= old(self)@.pending.drop_first());
                self.issued = Ghost(self.issued@.push((font.name@, data@)));
                LoadAction::Register { name: font.name, data }
            },
            LoadEvent::FileRead(Err(source)) => {
                self.stage = Stage::Finished;
                let last = self.queue.len() - 1;
                let path = self.queue[last].path.clone();
                LoadAction::Finish(Err(LoadFontError::FileReadError { path, source }))
            },
            LoadEvent::Registered => self.ask_next(),
        }
    }

    /// Takes the outcome of the last action, as `advance` does, but carries
    /// out a registration itself, against `ctx`, in a new family of the font's
    /// name at the lowest priority, and goes on: what it returns is never a
    /// `Register`.
    pub fn step(&mut self, ctx: &egui::Context, event: LoadEvent) -> (r: LoadAction)
        requires
            old(self).wf(),
            accepts(old(self)@, event@),
        ensures
            final(self).wf(),
            (final(self)@, r@) == next_registered(old(self)@, event@),
            !(r is Register),
    {
        let action = self.advance(event);
        match action {
            LoadAction::Register { name, data } => {
                add_font(ctx, name, data, FontPriority::Lowest);
                self.advance(LoadEvent::Registered)
            },
            other => other,
        }
    }

    /// Takes up the last font of the queue, or finish when it is empty.
    fn ask_next(&mut self) -> (r: LoadAction)
        ensures
            final(self).wf(),
            (final(self)@, r@) == ask_next(old(self)@.pending, old(self)@.issued),
    {
        if self.queue.len() == 0 {
            self.stage = Stage::Finished;
            LoadAction::Finish(Ok(()))
        } else {
            self.stage = Stage::Checking;
            let last = self.queue.len() - 1;
            LoadAction::CheckPath(self.queue[last].path.clone())
        }
    }
}

} // verus!
