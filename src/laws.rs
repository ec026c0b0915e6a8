use vstd::prelude::*;
use crate::font::FontDescriptor;
use crate::loader::{accepts, ask_next, begin, next, Event, LoaderModel, Outcome, Request, Stage};

verus! {

/// The state reached from `m` by taking `events` in order; it stays where it
/// is at the first event it does not accept.
pub open spec fn run(m: LoaderModel, events: Seq<Event>) -> LoaderModel
    decreases events.len(),
{
    if events.len() == 0 || !accepts(m, events[0]) {
        m
    } else {
        run(next(m, events[0]).0, events.drop_first())
    }
}

/// The events of a load in which every path exists and the files read hold
/// `contents`, one after another.
pub open spec fn clean_events(contents: Seq<Seq<u8>>) -> Seq<Event>
    decreases contents.len(),
{
    if contents.len() == 0 {
        Seq::empty()
    } else {
        seq![Event::PathChecked(true), Event::FileRead(Ok(contents[0])), Event::Registered]
            + clean_events(contents.drop_first())
    }
}

/// Each font's name with the bytes read for it.
pub open spec fn registrations(
    fonts: Seq<FontDescriptor>,
    contents: Seq<Seq<u8>>,
) -> Seq<(Seq<char>, Seq<u8>)> {
    Seq::new(fonts.len(), |i: int| (fonts[i].name, contents[i]))
}

/// A path found missing ends the load with `FileNotFound` of that very path;
/// nothing is registered for that font, and the loader takes no event after.
pub proof fn lemma_missing_path_stops(m: LoaderModel, later: Seq<Event>)
    requires
        m.stage == Stage::Checking,
        m.pending.len() > 0,
    ensures
        next(m, Event::PathChecked(false)).1 == Request::Finish(
            Outcome::NotFound(m.pending[0].path),
        ),
        next(m, Event::PathChecked(false)).0.issued == m.issued,
        run(next(m, Event::PathChecked(false)).0, later) == next(m, Event::PathChecked(false)).0,
{
}

/// A file that cannot be read ends the load with `FileReadError` of its path
/// and of the error that the read gave; nothing is registered for it, and the
/// loader takes no event after.
pub proof fn lemma_unreadable_file_stops(m: LoaderModel, err: std::io::Error, later: Seq<Event>)
    requires
        m.stage == Stage::Reading,
        m.pending.len() > 0,
    ensures
        next(m, Event::FileRead(Err(err))).1 == Request::Finish(
            Outcome::Unreadable(m.pending[0].path, err),
        ),
        next(m, Event::FileRead(Err(err))).0.issued == m.issued,
        run(next(m, Event::FileRead(Err(err))).0, later) == next(m, Event::FileRead(Err(err))).0,
{
}

proof fn lemma_clean_run_from(
    pending: Seq<FontDescriptor>,
    issued: Seq<(Seq<char>, Seq<u8>)>,
    contents: Seq<Seq<u8>>,
)
    requires
        pending.len() == contents.len(),
    ensures
        run(ask_next(pending, issued).0, clean_events(contents)).stage == Stage::Finished,
        run(ask_next(pending, issued).0, clean_events(contents)).pending.len() == 0,
        run(ask_next(pending, issued).0, clean_events(contents)).issued == issued + registrations(
            pending,
            contents,
        ),
    decreases pending.len(),
{
    if pending.len() == 0 {
        assert(registrations(pending, contents) =~= Seq::empty());
        assert(issued + registrations(pending, contents) =~= issued);
    } else {
        let font = pending[0];
        let data = contents[0];
        let m0 = ask_next(pending, issued).0;
        let rest = clean_events(contents.drop_first());
        let events = clean_events(contents);
        let m1 = next(m0, Event::PathChecked(true)).0;
        let m2 = next(m1, Event::FileRead(Ok(data))).0;
        let m3 = next(m2, Event::Registered).0;
        assert(events[0] == Event::PathChecked(true));
        assert(events.drop_first()[0] == Event::FileRead(Ok(data)));
        assert(events.drop_first().drop_first()[0] == Event::Registered);
        assert(events.drop_first().drop_first().drop_first() =~= rest);
        assert(run(m0, events) == run(m1, events.drop_first()));
        assert(run(m1, events.drop_first()) == run(m2, events.drop_first().drop_first()));
        assert(run(m2, events.drop_first().drop_first()) == run(m3, rest));
        let issued2 = issued.push((font.name, data));
        assert(m3 == ask_next(pending.drop_first(), issued2).0);
        lemma_clean_run_from(pending.drop_first(), issued2, contents.drop_first());
        assert(issued2 + registrations(pending.drop_first(), contents.drop_first()) =~= issued
            + registrations(pending, contents));
    }
}

/// When every path exists and every read succeeds, the load of `fonts` ends
/// successfully after exactly one registration per font, in the order given,
/// each with the font's name and the bytes read for it.
pub proof fn lemma_valid_fonts_all_registered(fonts: Seq<FontDescriptor>, contents: Seq<Seq<u8>>)
    requires
        fonts.len() == contents.len(),
    ensures
        run(begin(fonts).0, clean_events(contents)).stage == Stage::Finished,
        run(begin(fonts).0, clean_events(contents)).pending.len() == 0,
        run(begin(fonts).0, clean_events(contents)).issued == registrations(fonts, contents),
{
    lemma_clean_run_from(fonts, Seq::empty(), contents);
    assert(Seq::<(Seq<char>, Seq<u8>)>::empty() + registrations(fonts, contents) =~= registrations(
        fonts,
        contents,
    ));
}

/// An empty list of fonts finishes successfully at once, with nothing
/// registered.
pub proof fn lemma_empty_list_loads_nothing()
    ensures
        begin(Seq::empty()).1 == Request::Finish(Outcome::Loaded),
        begin(Seq::empty()).0.stage == Stage::Finished,
        begin(Seq::empty()).0.issued.len() == 0,
{
}

/// Loading the same readable font twice registers it twice, with the same
/// name and the same bytes each time: nothing is deduplicated.
pub proof fn lemma_reload_registers_again(font: FontDescriptor, data: Seq<u8>)
    ensures
        run(begin(seq![font]).0, clean_events(seq![data])).issued + run(
            begin(seq![font]).0,
            clean_events(seq![data]),
        ).issued == seq![(font.name, data), (font.name, data)],
{
    lemma_valid_fonts_all_registered(seq![font], seq![data]);
    assert(registrations(seq![font], seq![data]) =~= seq![(font.name, data)]);
    assert(seq![(font.name, data)] + seq![(font.name, data)] =~= seq![
        (font.name, data),
        (font.name, data),
    ]);
}

} // verus!
