use vstd::prelude::*;
use crate::audio::{first_vorbis, probed, AudioFormat, VorbisStream};
use crate::beatmap::BeatmapCharacteristic;
use crate::difficulty::{Difficulty, DifficultyView};
use crate::document::DecodeError;
use crate::info::{declared_in, Declaration, DeclarationView};
use crate::info::{DifficultyBeatmapSetView, Info, InfoView};
use crate::lookup::named;
use crate::source::DocumentSource;
use crate::table::{DifficultyTable, Slot};

verus! {

/// Why a declared difficulty could not be had.
#[derive(Clone, Copy, PartialEq, Eq, Structural, Debug)]
pub enum Failure {
    /// The source has no entry of that name.
    NotFound,
    /// The entry is no difficulty document.
    Decode(DecodeError),
}

/// The first failure met while the difficulties of a map were gathered: the place of the
/// declaration in document order, and what went wrong with it.
#[derive(Clone, Copy, PartialEq, Eq, Structural, Debug)]
pub struct ResolutionError {
    pub entry: usize,
    pub cause: Failure,
}

/// Why a map was not loaded.
#[derive(Clone, Copy, PartialEq, Eq, Structural, Debug)]
pub enum LoadError {
    /// The source has no entry of the info document's name.
    Io,
    /// The info document was not read.
    Decode(DecodeError),
    /// A difficulty could not be had.
    Resolution(ResolutionError),
    /// A locator of a remote map is malformed.
    InvalidReference,
}

/// A map: its info document and the difficulty documents that the info declares.
#[derive(Clone, Debug, PartialEq)]
pub struct Beatmap {
    pub info: Info,
    pub difficulties: DifficultyTable,
    /// The key under which the map was fetched, where it was fetched.
    pub key: Option<String>,
    /// The Vorbis stream of the map's audio, where it was probed and found.
    pub audio: Option<VorbisStream>,
}

/// The slot that a declaration fills.
pub open spec fn slot_of(declaration: DeclarationView) -> Slot {
    Slot { characteristic: declaration.characteristic, rank: declaration.rank }
}

/// What comes of fetching and reading the document of one declaration.
pub open spec fn outcome(declaration: DeclarationView, source: Seq<(Seq<char>, Seq<u8>)>) -> Result<
    DifficultyView,
    Failure,
> {
    match named(source, declaration.filename) {
        Some(bytes) => match DifficultyView::of_text(bytes) {
            Ok(document) => Ok(document),
            Err(e) => Err(Failure::Decode(e)),
        },
        None => Err(Failure::NotFound),
    }
}

/// Every declared document can be fetched and read.
pub open spec fn all_resolve(
    declarations: Seq<DeclarationView>,
    source: Seq<(Seq<char>, Seq<u8>)>,
) -> bool {
    forall|i: int|
        0 <= i < declarations.len() ==> outcome(#[trigger] declarations[i], source) is Ok
}

/// The declaration at `i` is the first one whose document cannot be fetched or read.
pub open spec fn first_failure(
    declarations: Seq<DeclarationView>,
    source: Seq<(Seq<char>, Seq<u8>)>,
    i: int,
) -> bool {
    &&& 0 <= i < declarations.len()
    &&& outcome(declarations[i], source) is Err
    &&& forall|j: int| 0 <= j < i ==> outcome(#[trigger] declarations[j], source) is Ok
}

/// The declaration at `i` is the last one that fills `slot`.
pub open spec fn last_declared(declarations: Seq<DeclarationView>, slot: Slot, i: int) -> bool {
    &&& 0 <= i < declarations.len()
    &&& slot_of(declarations[i]) == slot
    &&& forall|j: int| i < j < declarations.len() ==> slot_of(#[trigger] declarations[j]) != slot
}

/// The document that ends up at a slot: that of the last declaration that fills it.
pub open spec fn resolved_at(
    declarations: Seq<DeclarationView>,
    source: Seq<(Seq<char>, Seq<u8>)>,
    slot: Slot,
) -> Option<DifficultyView> {
    if exists|i: int| last_declared(declarations, slot, i) {
        let i = choose|i: int| last_declared(declarations, slot, i);
        match outcome(declarations[i], source) {
            Ok(document) => Some(document),
            Err(_) => None,
        }
    } else {
        None
    }
}

/// The info document has a set for the characteristic.
pub open spec fn has_set(info: InfoView, characteristic: BeatmapCharacteristic) -> bool {
    exists|s: int|
        0 <= s < info.difficulty_beatmap_sets.len() && (
        #[trigger] info.difficulty_beatmap_sets[s]).beatmap_characteristic_name == characteristic
}

/// `bundle` is the map that `info` and `source` make: every declared document was had,
/// the table has a key for each characteristic that has a set, and at each slot stands
/// the document of the last declaration that fills it.
pub open spec fn resolves_to(
    info: InfoView,
    source: Seq<(Seq<char>, Seq<u8>)>,
    bundle: Beatmap,
) -> bool {
    &&& bundle.info.deep_view() == info
    &&& bundle.key is None
    &&& bundle.audio is None
    &&& all_resolve(info.declarations(), source)
    &&& forall|c: BeatmapCharacteristic| bundle.difficulties.declares(c) <==> has_set(info, c)
    &&& forall|slot: Slot| #[trigger]
        bundle.difficulties.at(slot) == resolved_at(info.declarations(), source, slot)
}

/// `error` names the first declaration of `info` whose document `source` does not give,
/// and says why.
pub open spec fn fails_with(
    info: InfoView,
    source: Seq<(Seq<char>, Seq<u8>)>,
    error: ResolutionError,
) -> bool {
    &&& first_failure(info.declarations(), source, error.entry as int)
    &&& outcome(info.declarations()[error.entry as int], source) == Err::<
        DifficultyView,
        Failure,
    >(error.cause)
}

/// Only one declaration is the last one that fills a slot.
pub proof fn lemma_last_declared_unique(
    declarations: Seq<DeclarationView>,
    slot: Slot,
    i: int,
    j: int,
)
    requires
        last_declared(declarations, slot, i),
        last_declared(declarations, slot, j),
    ensures
        i == j,
{
    if i < j {
        assert(slot_of(declarations[j]) != slot);
    }
    if j < i {
        assert(slot_of(declarations[i]) != slot);
    }
}

/// One more declaration changes what ends up at its own slot, and at no other.
pub proof fn lemma_resolved_step(
    declarations: Seq<DeclarationView>,
    source: Seq<(Seq<char>, Seq<u8>)>,
    n: int,
    slot: Slot,
)
    requires
        0 <= n < declarations.len(),
    ensures
        resolved_at(declarations.take(n + 1), source, slot) == if slot_of(declarations[n])
            == slot {
            match outcome(declarations[n], source) {
                Ok(document) => Some(document),
                Err(_) => None,
            }
        } else {
            resolved_at(declarations.take(n), source, slot)
        },
{
    let shorter = declarations.take(n);
    let longer = declarations.take(n + 1);
    assert(longer[n] == declarations[n]);
    if slot_of(declarations[n]) == slot {
        assert(last_declared(longer, slot, n));
        let c = choose|c: int| last_declared(longer, slot, c);
        lemma_last_declared_unique(longer, slot, c, n);
    } else {
        assert forall|c: int| last_declared(longer, slot, c) <==> last_declared(
            shorter,
            slot,
            c,
        ) by {
            if last_declared(longer, slot, c) {
                assert(c != n);
                assert(shorter[c] == longer[c]);
                assert forall|j: int| c < j < shorter.len() implies slot_of(
                    #[trigger] shorter[j],
                ) != slot by {
                    assert(shorter[j] == longer[j]);
                }
            }
            if last_declared(shorter, slot, c) {
                assert(shorter[c] == longer[c]);
                assert forall|j: int| c < j < longer.len() implies slot_of(#[trigger] longer[j])
                    != slot by {
                    if j < n {
                        assert(shorter[j] == longer[j]);
                    }
                }
            }
        }
        if exists|c: int| last_declared(shorter, slot, c) {
            let a = choose|c: int| last_declared(shorter, slot, c);
            let b = choose|c: int| last_declared(longer, slot, c);
            assert(last_declared(longer, slot, a));
            lemma_last_declared_unique(longer, slot, a, b);
            assert(shorter[a] == longer[a]);
        }
    }
}

/// Each declaration belongs to a set of its characteristic.
pub proof fn lemma_declared_from_set(sets: Seq<DifficultyBeatmapSetView>, i: int)
    requires
        0 <= i < declared_in(sets).len(),
    ensures
        exists|s: int|
            0 <= s < sets.len() && (#[trigger] sets[s]).beatmap_characteristic_name == declared_in(
                sets,
            )[i].characteristic,
    decreases sets.len(),
{
    let front = sets.drop_last();
    if i < declared_in(front).len() {
        lemma_declared_from_set(front, i);
        let s = choose|s: int|
            0 <= s < front.len() && (#[trigger] front[s]).beatmap_characteristic_name
                == declared_in(front)[i].characteristic;
        assert(sets[s] == front[s]);
    } else {
        assert(sets[sets.len() - 1] == sets.last());
    }
}

/// Fetches the document of one declaration and reads it.
pub fn fetch(declaration: &Declaration, source: &DocumentSource) -> (r: Result<Difficulty, Failure>)
    ensures
        r matches Ok(d) ==> outcome(declaration.deep_view(), source@) == Ok::<
            DifficultyView,
            Failure,
        >(d.deep_view()),
        r matches Err(e) ==> outcome(declaration.deep_view(), source@) == Err::<
            DifficultyView,
            Failure,
        >(e),
{
    match source.open(declaration.filename.as_str()) {
        Some(bytes) => match Difficulty::from_text(bytes.as_slice()) {
            Ok(document) => Ok(document),
            Err(e) => Err(Failure::Decode(e)),
        },
        None => Err(Failure::NotFound),
    }
}

impl Beatmap {
    /// Gathers the difficulty documents that an info document declares, in document order.
    /// The first document that cannot be fetched or read ends the work with its error, and
    /// no map is returned. Where two declarations fill one slot, the later one stays.
    pub fn resolve(info: Info, source: &DocumentSource) -> (r: Result<Beatmap, ResolutionError>)
        ensures
            r matches Ok(bundle) ==> resolves_to(info.deep_view(), source@, bundle),
            r matches Err(e) ==> fails_with(info.deep_view(), source@, e),
    {
        let ghost model = info.deep_view();
        let ghost all = model.declarations();
        let declarations = info.declarations();
        let mut table = DifficultyTable::new();
        let mut s: usize = 0;
        while s < info.difficulty_beatmap_sets.len()
            invariant
                s <= info.difficulty_beatmap_sets.len(),
                model == info.deep_view(),
                forall|slot: Slot| table.at(slot) is None,
                forall|c: BeatmapCharacteristic|
                    table.declares(c) <==> exists|j: int|
                        0 <= j < s && (
                        #[trigger] model.difficulty_beatmap_sets[j]).beatmap_characteristic_name
                            == c,
            decreases info.difficulty_beatmap_sets.len() - s,
        {
            let c = info.difficulty_beatmap_sets[s].beatmap_characteristic_name;
            assert(model.difficulty_beatmap_sets[s as int].beatmap_characteristic_name == c);
            table.declare(c);
            s += 1;
        }
        let mut i: usize = 0;
        proof {
            assert(all.take(0) =~= Seq::empty());
        }
        while i < declarations.len()
            invariant
                i <= declarations.len(),
                model == info.deep_view(),
                all == model.declarations(),
                declarations.deep_view() == all,
                forall|j: int| 0 <= j < i ==> outcome(#[trigger] all[j], source@) is Ok,
                forall|c: BeatmapCharacteristic| table.declares(c) <==> has_set(model, c),
                forall|slot: Slot| #[trigger]
                    table.at(slot) == resolved_at(all.take(i as int), source@, slot),
            decreases declarations.len() - i,
        {
            let declaration = &declarations[i];
            assert(declaration.deep_view() == all[i as int]);
            let document = match fetch(declaration, source) {
                Ok(document) => document,
                Err(cause) => {
                    return Err(ResolutionError { entry: i, cause });
                },
            };
            let slot = Slot { characteristic: declaration.characteristic, rank: declaration.rank };
            proof {
                lemma_declared_from_set(model.difficulty_beatmap_sets, i as int);
                assert forall|k: Slot|
                    resolved_at(all.take(i + 1), source@, k) == if k == slot {
                        Some(document.deep_view())
                    } else {
                        resolved_at(all.take(i as int), source@, k)
                    } by {
                    lemma_resolved_step(all, source@, i as int, k);
                }
            }
            table.insert(slot, document);
            i += 1;
        }
        proof {
            assert(all.take(i as int) =~= all);
        }
        Ok(Beatmap { info, difficulties: table, key: None, audio: None })
    }

    /// Loads a map from a source: reads the info document that stands under `name`, then
    /// gathers the difficulties that it declares.
    pub fn from_source(source: &DocumentSource, name: &str) -> (r: Result<Beatmap, LoadError>)
        ensures
            match info_of(source@, name@) {
                Ok(info) => match r {
                    Ok(bundle) => resolves_to(info, source@, bundle),
                    Err(LoadError::Resolution(e)) => fails_with(info, source@, e),
                    Err(_) => false,
                },
                Err(e) => r matches Err(x) && x == e,
            },
    {
        let bytes = match source.open(name) {
            Some(bytes) => bytes,
            None => return Err(LoadError::Io),
        };
        let info = match Info::from_text(bytes.as_slice()) {
            Ok(info) => info,
            Err(e) => return Err(LoadError::Decode(e)),
        };
        match Beatmap::resolve(info, source) {
            Ok(bundle) => Ok(bundle),
            Err(e) => Err(LoadError::Resolution(e)),
        }
    }

    /// The same map, marked with the key under which it was fetched.
    pub fn with_key(self, key: String) -> (r: Beatmap)
        ensures
            r.key == Some(key),
            r.info == self.info,
            r.difficulties == self.difficulties,
            r.audio == self.audio,
    {
        Beatmap { info: self.info, difficulties: self.difficulties, key: Some(key), audio: self.audio }
    }

    /// The same map, with the stream that its audio's duration is taken from: the first
    /// Vorbis stream among the formats that a probe of the audio gave, or none.
    pub fn with_audio(self, formats: &Vec<AudioFormat>) -> (r: Beatmap)
        ensures
            r.audio == probed(formats@),
            r.info == self.info,
            r.difficulties == self.difficulties,
            r.key == self.key,
    {
        Beatmap {
            info: self.info,
            difficulties: self.difficulties,
            key: self.key,
            audio: first_vorbis(formats),
        }
    }
}

/// The info document that stands in a source under a name.
pub open spec fn info_of(source: Seq<(Seq<char>, Seq<u8>)>, name: Seq<char>) -> Result<
    InfoView,
    LoadError,
> {
    match named(source, name) {
        Some(bytes) => match InfoView::of_text(bytes) {
            Ok(info) => Ok(info),
            Err(e) => Err(LoadError::Decode(e)),
        },
        None => Err(LoadError::Io),
    }
}

/// Where several declarations fill one slot, the document of the last of them stands in
/// the map, whatever the earlier ones named.
pub proof fn lemma_last_declaration_wins(
    info: InfoView,
    source: Seq<(Seq<char>, Seq<u8>)>,
    bundle: Beatmap,
    i: int,
)
    requires
        resolves_to(info, source, bundle),
        last_declared(info.declarations(), slot_of(info.declarations()[i]), i),
    ensures
        outcome(info.declarations()[i], source) matches Ok(document)
            && bundle.difficulties.at(slot_of(info.declarations()[i])) == Some(document),
{
    let declarations = info.declarations();
    let slot = slot_of(declarations[i]);
    let c = choose|c: int| last_declared(declarations, slot, c);
    lemma_last_declared_unique(declarations, slot, c, i);
    assert(outcome(declarations[i], source) is Ok);
    assert(bundle.difficulties.at(slot) == resolved_at(declarations, source, slot));
}

/// A slot of the map holds a document exactly where a declaration fills it.
pub proof fn lemma_slots_are_declared(
    info: InfoView,
    source: Seq<(Seq<char>, Seq<u8>)>,
    bundle: Beatmap,
    slot: Slot,
)
    requires
        resolves_to(info, source, bundle),
    ensures
        bundle.difficulties.at(slot) is Some <==> exists|i: int|
            0 <= i < info.declarations().len() && slot_of(#[trigger] info.declarations()[i])
                == slot,
{
    let declarations = info.declarations();
    assert(bundle.difficulties.at(slot) == resolved_at(declarations, source, slot));
    if exists|i: int| 0 <= i < declarations.len() && slot_of(#[trigger] declarations[i]) == slot {
        let i = choose|i: int|
            0 <= i < declarations.len() && slot_of(#[trigger] declarations[i]) == slot;
        lemma_some_is_last(declarations, slot, i);
        let c = choose|c: int| last_declared(declarations, slot, c);
        assert(outcome(declarations[c], source) is Ok);
    }
    if bundle.difficulties.at(slot) is Some {
        let c = choose|c: int| last_declared(declarations, slot, c);
        assert(slot_of(declarations[c]) == slot);
    }
}

/// Among the declarations that fill a slot, one is the last.
pub proof fn lemma_some_is_last(declarations: Seq<DeclarationView>, slot: Slot, i: int)
    requires
        0 <= i < declarations.len(),
        slot_of(declarations[i]) == slot,
    ensures
        exists|c: int| last_declared(declarations, slot, c),
    decreases declarations.len() - i,
{
    if exists|j: int| i < j < declarations.len() && slot_of(#[trigger] declarations[j]) == slot {
        let j = choose|j: int|
            i < j < declarations.len() && slot_of(#[trigger] declarations[j]) == slot;
        lemma_some_is_last(declarations, slot, j);
    } else {
        assert(last_declared(declarations, slot, i));
    }
}

/// A declared document that cannot be fetched or read leaves no map at all: nothing is
/// the map of such an info document and source.
pub proof fn lemma_failure_leaves_no_map(
    info: InfoView,
    source: Seq<(Seq<char>, Seq<u8>)>,
    bundle: Beatmap,
    i: int,
)
    requires
        0 <= i < info.declarations().len(),
        outcome(info.declarations()[i], source) is Err,
    ensures
        !resolves_to(info, source, bundle),
        exists|first: int| first_failure(info.declarations(), source, first) && first <= i,
{
    lemma_first_failure_exists(info.declarations(), source, i);
}

/// Before any failing declaration stands a first one.
pub proof fn lemma_first_failure_exists(
    declarations: Seq<DeclarationView>,
    source: Seq<(Seq<char>, Seq<u8>)>,
    i: int,
)
    requires
        0 <= i < declarations.len(),
        outcome(declarations[i], source) is Err,
    ensures
        exists|first: int| first_failure(declarations, source, first) && first <= i,
    decreases i,
{
    if exists|j: int| 0 <= j < i && outcome(#[trigger] declarations[j], source) is Err {
        let j = choose|j: int| 0 <= j < i && outcome(#[trigger] declarations[j], source) is Err;
        lemma_first_failure_exists(declarations, source, j);
        let first = choose|first: int| first_failure(declarations, source, first) && first <= j;
        assert(first_failure(declarations, source, first) && first <= i);
    } else {
        assert(first_failure(declarations, source, i));
    }
}

} // verus!
