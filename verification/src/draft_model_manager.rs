//! The store of loaded models and of their placed instances.
//!
//! Each name is stored once. A name's first successful load brings its model
//! and one instance; every later request for the name adds one instance and
//! loads nothing. An instance buffer goes with each name and is made anew,
//! for the whole list, whenever the list grows. Nothing is ever removed, so
//! a name keeps its place in the store.
//!
//! Loading is the caller's work, since it reads files and fills device
//! buffers. [`DraftModelManager::add_model`] says when it is needed and takes
//! its result.

use vstd::prelude::*;
use crate::draft_instance::DraftInstance;
use crate::draft_instance::RAW_INSTANCE_SIZE;
use crate::draft_model::DraftModel;
use crate::draft_model::ModelView;
use crate::draft_model::MAX_INSTANCES;
use crate::linear::Vec3;

verus! {

/// What is known here of an instance buffer on the device: how many
/// instances it was made for, and its length in bytes.
#[derive(Clone, Copy, Debug, PartialEq, Eq, Structural)]
pub struct DraftInstanceBuffer {
    pub instance_count: u32,
    pub size: u64,
}

/// Why a model could not be loaded.
#[derive(Clone, Copy, Debug, PartialEq, Eq, Structural)]
pub enum DraftLoadError {
    /// No file of that name.
    NotFound,
    /// The file, a material or a texture could not be decoded.
    Decode,
    /// A mesh names a material that the model does not have.
    MissingMaterial,
}

/// What a request to add a model came to.
#[derive(Clone, Copy, Debug, PartialEq, Eq, Structural)]
pub enum DraftAddOutcome {
    /// The name was known: one more instance of it is in the scene.
    InstanceAdded,
    /// The name was new: its model and a first instance are in the scene.
    ModelLoaded,
    /// The name is new and no load result came with the request. Nothing has
    /// changed; load the model and ask again.
    NeedsLoad,
    /// The name is new and could not be loaded. Nothing has changed.
    LoadFailed(DraftLoadError),
    /// The name has as many instances as one draw can cover. Nothing has
    /// changed.
    InstanceLimit,
}

/// One name of the store with all that belongs to it.
pub struct EntryView {
    pub name: Seq<char>,
    pub model: ModelView,
    pub instances: Seq<DraftInstance>,
    pub buffer: DraftInstanceBuffer,
}

/// One request to add a model, as [`DraftModelManager::add_model`] takes it.
pub struct AddRequest {
    pub name: Seq<char>,
    pub position: Option<Vec3>,
    pub loaded: Option<Result<ModelView, DraftLoadError>>,
}

/// The instance buffer for a list of `n` instances.
pub open spec fn buffer_for(n: nat) -> DraftInstanceBuffer {
    DraftInstanceBuffer { instance_count: n as u32, size: (RAW_INSTANCE_SIZE * n) as u64 }
}

/// Whether `name` is in the store.
pub open spec fn has_name(entries: Seq<EntryView>, name: Seq<char>) -> bool {
    exists|i: int| 0 <= i < entries.len() && (#[trigger] entries[i]).name == name
}

/// The place of `name` in the store, where it is there.
pub open spec fn place_of(entries: Seq<EntryView>, name: Seq<char>) -> int {
    choose|i: int| 0 <= i < entries.len() && (#[trigger] entries[i]).name == name
}

/// How many instances of `name` the scene holds: none where the name is not
/// in the store.
pub open spec fn instance_count(entries: Seq<EntryView>, name: Seq<char>) -> nat {
    if has_name(entries, name) {
        entries[place_of(entries, name)].instances.len()
    } else {
        0
    }
}

/// How many entries of the store carry `name`.
pub open spec fn entry_count(entries: Seq<EntryView>, name: Seq<char>) -> nat
    decreases entries.len(),
{
    if entries.len() == 0 {
        0
    } else {
        entry_count(entries.drop_last(), name) + if entries.last().name == name {
            1nat
        } else {
            0nat
        }
    }
}

/// What holds of one entry at all times.
pub open spec fn entry_wf(entry: EntryView) -> bool {
    &&& entry.model.well_formed()
    &&& 1 <= entry.instances.len() <= MAX_INSTANCES
    &&& entry.buffer == buffer_for(entry.instances.len())
}

/// What holds of the store at all times: no name twice, every model sound,
/// every name with at least one instance, and every instance buffer made for
/// the list as it is now.
pub open spec fn store_wf(entries: Seq<EntryView>) -> bool {
    &&& forall|i: int, j: int|
        0 <= i < j < entries.len() ==> (#[trigger] entries[i]).name != (#[trigger] entries[j]).name
    &&& forall|i: int| 0 <= i < entries.len() ==> entry_wf(#[trigger] entries[i])
}

/// The entry with one more instance at the end and its buffer made anew.
pub open spec fn with_instance(entry: EntryView, instance: DraftInstance) -> EntryView {
    EntryView {
        name: entry.name,
        model: entry.model,
        instances: entry.instances.push(instance),
        buffer: buffer_for(entry.instances.len() + 1),
    }
}

/// The entry of a model that was just loaded: one instance.
pub open spec fn first_entry(name: Seq<char>, model: ModelView, instance: DraftInstance) -> EntryView {
    EntryView { name, model, instances: seq![instance], buffer: buffer_for(1) }
}

/// What a request comes to in a given store.
pub open spec fn outcome_of(entries: Seq<EntryView>, request: AddRequest) -> DraftAddOutcome {
    if has_name(entries, request.name) {
        if entries[place_of(entries, request.name)].instances.len() < MAX_INSTANCES {
            DraftAddOutcome::InstanceAdded
        } else {
            DraftAddOutcome::InstanceLimit
        }
    } else {
        match request.loaded {
            None => DraftAddOutcome::NeedsLoad,
            Some(Err(e)) => DraftAddOutcome::LoadFailed(e),
            Some(Ok(model)) => if model.well_formed() {
                DraftAddOutcome::ModelLoaded
            } else {
                DraftAddOutcome::LoadFailed(DraftLoadError::MissingMaterial)
            },
        }
    }
}

/// The store after a request.
pub open spec fn after_add(entries: Seq<EntryView>, request: AddRequest) -> Seq<EntryView> {
    match outcome_of(entries, request) {
        DraftAddOutcome::InstanceAdded => {
            let i = place_of(entries, request.name);
            entries.update(i, with_instance(entries[i], DraftInstance::placed(request.position)))
        },
        DraftAddOutcome::ModelLoaded => entries.push(
            first_entry(
                request.name,
                request.loaded->Some_0->Ok_0,
                DraftInstance::placed(request.position),
            ),
        ),
        _ => entries,
    }
}

/// Whether a request adds an instance: the name is known and below the
/// limit, or it is new and comes with a sound model.
pub open spec fn accepted(entries: Seq<EntryView>, request: AddRequest) -> bool {
    outcome_of(entries, request) == DraftAddOutcome::InstanceAdded || outcome_of(entries, request)
        == DraftAddOutcome::ModelLoaded
}

/// The store after a run of requests, taken in order.
pub open spec fn after_adds(entries: Seq<EntryView>, requests: Seq<AddRequest>) -> Seq<EntryView>
    decreases requests.len(),
{
    if requests.len() == 0 {
        entries
    } else {
        after_add(after_adds(entries, requests.drop_last()), requests.last())
    }
}

/// How many of the requests ask for `name`.
pub open spec fn requests_for(requests: Seq<AddRequest>, name: Seq<char>) -> nat
    decreases requests.len(),
{
    if requests.len() == 0 {
        0
    } else {
        requests_for(requests.drop_last(), name) + if requests.last().name == name {
            1nat
        } else {
            0nat
        }
    }
}

/// Whether every request for `name` in the run adds an instance, in the
/// store as that request finds it.
pub open spec fn all_accepted(
    entries: Seq<EntryView>,
    requests: Seq<AddRequest>,
    name: Seq<char>,
) -> bool
    decreases requests.len(),
{
    if requests.len() == 0 {
        true
    } else {
        &&& all_accepted(entries, requests.drop_last(), name)
        &&& requests.last().name == name ==> accepted(
            after_adds(entries, requests.drop_last()),
            requests.last(),
        )
    }
}

/// In a store without repeated names, a name stands where it is found.
pub proof fn lemma_place_of(entries: Seq<EntryView>, name: Seq<char>, i: int)
    requires
        store_wf(entries),
        0 <= i < entries.len(),
        entries[i].name == name,
    ensures
        has_name(entries, name),
        place_of(entries, name) == i,
{
    let j = place_of(entries, name);
    assert(0 <= j < entries.len() && entries[j].name == name);
    if j < i {
        assert(entries[j].name != entries[i].name);
    } else if i < j {
        assert(entries[i].name != entries[j].name);
    }
}

/// A store without repeated names has one entry for a name that it holds
/// and none for any other.
pub proof fn lemma_entry_count(entries: Seq<EntryView>, name: Seq<char>)
    requires
        store_wf(entries),
    ensures
        entry_count(entries, name) == (if has_name(entries, name) {
            1nat
        } else {
            0nat
        }),
    decreases entries.len(),
{
    if entries.len() > 0 {
        let front = entries.drop_last();
        let n = entries.len() - 1;
        assert(store_wf(front)) by {
            assert forall|i: int, j: int| 0 <= i < j < front.len() implies (#[trigger] front[i]).name
                != (#[trigger] front[j]).name by {
                assert(entries[i].name != entries[j].name);
            }
            assert forall|i: int| 0 <= i < front.len() implies entry_wf(#[trigger] front[i]) by {
                assert(entry_wf(entries[i]));
            }
        }
        lemma_entry_count(front, name);
        if entries.last().name == name {
            if has_name(front, name) {
                let j = place_of(front, name);
                assert(front[j].name == name);
                assert(entries[j].name != entries[n].name);
            }
            assert(entries[n].name == name);
        } else {
            if has_name(entries, name) {
                let j = place_of(entries, name);
                assert(entries[j].name == name);
                assert(front[j].name == name);
            }
            if has_name(front, name) {
                let j = place_of(front, name);
                assert(front[j].name == name);
                assert(entries[j].name == name);
            }
        }
    }
}

/// A request leaves the store sound, changes nothing for other names, and
/// adds exactly one instance for its own name when it is accepted.
pub proof fn lemma_after_add(entries: Seq<EntryView>, request: AddRequest, name: Seq<char>)
    requires
        store_wf(entries),
    ensures
        store_wf(after_add(entries, request)),
        has_name(after_add(entries, request), name) == (has_name(entries, name) || (request.name
            == name && accepted(entries, request))),
        instance_count(after_add(entries, request), name) == instance_count(entries, name) + (if request.name
            == name && accepted(entries, request) {
            1nat
        } else {
            0nat
        }),
{
    let post = after_add(entries, request);
    let instance = DraftInstance::placed(request.position);
    match outcome_of(entries, request) {
        DraftAddOutcome::InstanceAdded => {
            let i = place_of(entries, request.name);
            assert(0 <= i < entries.len() && entries[i].name == request.name);
            assert(entry_wf(entries[i]));
            assert(post.len() == entries.len());
            assert forall|a: int, b: int| 0 <= a < b < post.len() implies (#[trigger] post[a]).name
                != (#[trigger] post[b]).name by {
                assert(entries[a].name != entries[b].name);
            }
            assert forall|a: int| 0 <= a < post.len() implies entry_wf(#[trigger] post[a]) by {
                assert(entry_wf(entries[a]));
            }
            assert(store_wf(post));
            if has_name(entries, name) {
                let j = place_of(entries, name);
                assert(entries[j].name == name);
                assert(post[j].name == name);
                lemma_place_of(post, name, j);
                lemma_place_of(entries, name, j);
                if request.name == name {
                    lemma_place_of(entries, name, i);
                }
            } else {
                if has_name(post, name) {
                    let j = place_of(post, name);
                    assert(post[j].name == name);
                    assert(entries[j].name == name);
                }
            }
        },
        DraftAddOutcome::ModelLoaded => {
            let n = entries.len() as int;
            assert(post.len() == n + 1);
            assert forall|a: int, b: int| 0 <= a < b < post.len() implies (#[trigger] post[a]).name
                != (#[trigger] post[b]).name by {
                if b < n {
                    assert(entries[a].name != entries[b].name);
                } else {
                    assert(post[b].name == request.name);
                    assert(post[a] == entries[a]);
                }
            }
            assert forall|a: int| 0 <= a < post.len() implies entry_wf(#[trigger] post[a]) by {
                if a < n {
                    assert(entry_wf(entries[a]));
                }
            }
            assert(store_wf(post));
            if request.name == name {
                assert(post[n].name == name);
                lemma_place_of(post, name, n);
            } else {
                if has_name(entries, name) {
                    let j = place_of(entries, name);
                    assert(entries[j].name == name);
                    assert(post[j] == entries[j]);
                    lemma_place_of(post, name, j);
                }
                if has_name(post, name) {
                    let j = place_of(post, name);
                    assert(post[j].name == name);
                    assert(j < n);
                    assert(entries[j].name == name);
                }
            }
        },
        _ => {},
    }
}

/// Nothing leaves the store and nothing in it changes but by growing: after
/// a request every name stands where it stood, with the model it had, and
/// its instances as they were, followed by at most one more.
pub proof fn lemma_add_keeps_what_is_there(entries: Seq<EntryView>, request: AddRequest)
    requires
        store_wf(entries),
    ensures
        after_add(entries, request).len() >= entries.len(),
        forall|i: int|
            0 <= i < entries.len() ==> (#[trigger] after_add(entries, request)[i]).name
                == entries[i].name,
        forall|i: int|
            0 <= i < entries.len() ==> (#[trigger] after_add(entries, request)[i]).model
                == entries[i].model,
        forall|i: int|
            0 <= i < entries.len() ==> entries[i].instances.is_prefix_of(
                (#[trigger] after_add(entries, request)[i]).instances,
            ),
        forall|i: int|
            0 <= i < entries.len() ==> (#[trigger] after_add(entries, request)[i]).instances.len()
                <= entries[i].instances.len() + 1,
{
    let post = after_add(entries, request);
    assert forall|i: int| 0 <= i < entries.len() implies entries[i].instances.is_prefix_of(
        (#[trigger] post[i]).instances,
    ) by {
        assert(entries[i].instances =~= post[i].instances.subrange(
            0,
            entries[i].instances.len() as int,
        ));
    }
}

/// However often a name is asked for, the store holds it once, and the
/// scene holds one instance of it for every request that was accepted.
///
/// Of a run of requests in which every request for `name` is accepted:
/// afterwards the store is sound, it has exactly one entry for `name` if it
/// had one before or the run asks for the name at all, and the number of the
/// name's instances has grown by the number of requests for it.
pub proof fn lemma_repeated_adds(entries: Seq<EntryView>, requests: Seq<AddRequest>, name: Seq<char>)
    requires
        store_wf(entries),
        all_accepted(entries, requests, name),
    ensures
        store_wf(after_adds(entries, requests)),
        has_name(after_adds(entries, requests), name) == (has_name(entries, name) || requests_for(
            requests,
            name,
        ) > 0),
        entry_count(after_adds(entries, requests), name) == (if has_name(entries, name)
            || requests_for(requests, name) > 0 {
            1nat
        } else {
            0nat
        }),
        instance_count(after_adds(entries, requests), name) == instance_count(entries, name)
            + requests_for(requests, name),
    decreases requests.len(),
{
    if requests.len() > 0 {
        lemma_repeated_adds(entries, requests.drop_last(), name);
        lemma_after_add(after_adds(entries, requests.drop_last()), requests.last(), name);
    }
    lemma_entry_count(after_adds(entries, requests), name);
}

struct StoreEntry {
    name: String,
    model: DraftModel,
    instances: Vec<DraftInstance>,
    instances_buffer: DraftInstanceBuffer,
}

impl View for StoreEntry {
    type V = EntryView;

    closed spec fn view(&self) -> EntryView {
        EntryView {
            name: self.name@,
            model: self.model@,
            instances: self.instances@,
            buffer: self.instances_buffer,
        }
    }
}

/// The store of models and instances.
pub struct DraftModelManager {
    entries: Vec<StoreEntry>,
}

impl View for DraftModelManager {
    type V = Seq<EntryView>;

    closed spec fn view(&self) -> Seq<EntryView> {
        Seq::new(self.entries@.len(), |i: int| self.entries@[i]@)
    }
}

/// What a load result is, as plain values.
pub open spec fn loaded_view(
    loaded: Option<Result<DraftModel, DraftLoadError>>,
) -> Option<Result<ModelView, DraftLoadError>> {
    match loaded {
        None => None,
        Some(Err(e)) => Some(Err(e)),
        Some(Ok(model)) => Some(Ok(model@)),
    }
}

impl DraftModelManager {
    /// See [`store_wf`].
    pub open spec fn well_formed(&self) -> bool {
        store_wf(self@)
    }

    /// An empty store.
    pub fn new() -> (r: DraftModelManager)
        ensures
            r@ == Seq::<EntryView>::empty(),
            r.well_formed(),
    {
        let r = DraftModelManager { entries: Vec::new() };
        assert(r@ =~= Seq::<EntryView>::empty());
        r
    }

    /// How many names the store holds.
    pub fn len(&self) -> (n: usize)
        ensures
            n == self@.len(),
    {
        self.entries.len()
    }

    fn find(&self, key: &String) -> (found: Option<usize>)
        ensures
            (match found {
                Some(i) => i < self@.len() && self@[i as int].name == key@,
                None => !has_name(self@, key@),
            }),
    {
        let mut i: usize = 0;
        while i < self.entries.len()
            invariant
                i <= self.entries.len(),
                forall|j: int| 0 <= j < i ==> (#[trigger] self@[j]).name != key@,
            decreases self.entries.len() - i,
        {
            if self.entries[i].name == *key {
                return Some(i);
            }
            i += 1;
        }
        None
    }

    /// Where `file_name` stands in the store, if it is there.
    pub fn position(&self, file_name: &str) -> (found: Option<usize>)
        requires
            self.well_formed(),
        ensures
            found is Some == has_name(self@, file_name@),
            found is Some ==> found->Some_0 == place_of(self@, file_name@),
    {
        let key = file_name.to_owned();
        self.find(&key)
    }

    /// Whether a model of that name has been loaded.
    pub fn contains(&self, file_name: &str) -> (r: bool)
        requires
            self.well_formed(),
        ensures
            r == has_name(self@, file_name@),
    {
        self.position(file_name).is_some()
    }

    /// Puts one more instance of `file_name` into the scene.
    ///
    /// Where the name is known, `loaded` is not looked at. Where it is new,
    /// `loaded` is what loading it gave, or `None` to ask whether loading is
    /// needed at all. The new instance stands at `position`, or at the origin
    /// where none is given, and is not rotated.
    pub fn add_model(
        &mut self,
        file_name: &str,
        position: Option<Vec3>,
        loaded: Option<Result<DraftModel, DraftLoadError>>,
    ) -> (outcome: DraftAddOutcome)
        requires
            old(self).well_formed(),
        ensures
            final(self).well_formed(),
            outcome == outcome_of(
                old(self)@,
                AddRequest { name: file_name@, position, loaded: loaded_view(loaded) },
            ),
            final(self)@ == after_add(
                old(self)@,
                AddRequest { name: file_name@, position, loaded: loaded_view(loaded) },
            ),
    {
        let key = file_name.to_owned();
        let instance = DraftInstance::place(position);
        let ghost request = AddRequest { name: file_name@, position, loaded: loaded_view(loaded) };
        match self.find(&key) {
            Some(i) => {
                assert(i as int == place_of(self@, key@));
                let n = self.entries[i].instances.len();
                if n < MAX_INSTANCES {
                    let entry = &mut self.entries[i];
                    entry.instances.push(instance);
                    entry.instances_buffer = DraftInstanceBuffer {
                        instance_count: (n + 1) as u32,
                        size: RAW_INSTANCE_SIZE * ((n + 1) as u64),
                    };
                    assert(self@ =~= after_add(old(self)@, request));
                    DraftAddOutcome::InstanceAdded
                } else {
                    DraftAddOutcome::InstanceLimit
                }
            },
            None => match loaded {
                None => DraftAddOutcome::NeedsLoad,
                Some(Err(e)) => DraftAddOutcome::LoadFailed(e),
                Some(Ok(model)) => {
                    if model.is_well_formed() {
                        let mut instances: Vec<DraftInstance> = Vec::new();
                        instances.push(instance);
                        self.entries.push(
                            StoreEntry {
                                name: key,
                                model,
                                instances,
                                instances_buffer: DraftInstanceBuffer {
                                    instance_count: 1,
                                    size: RAW_INSTANCE_SIZE,
                                },
                            },
                        );
                        assert(self@ =~= after_add(old(self)@, request));
                        DraftAddOutcome::ModelLoaded
                    } else {
                        DraftAddOutcome::LoadFailed(DraftLoadError::MissingMaterial)
                    }
                },
            },
        }
    }

    /// The name at place `i`.
    pub fn name(&self, i: usize) -> (r: &String)
        requires
            i < self@.len(),
        ensures
            r@ == self@[i as int].name,
    {
        &self.entries[i].name
    }

    /// The model at place `i`.
    pub fn model(&self, i: usize) -> (r: &DraftModel)
        requires
            i < self@.len(),
        ensures
            r@ == self@[i as int].model,
    {
        &self.entries[i].model
    }

    /// The instances of the model at place `i`, in the order in which they
    /// were added.
    pub fn instances(&self, i: usize) -> (r: &Vec<DraftInstance>)
        requires
            i < self@.len(),
        ensures
            r@ == self@[i as int].instances,
    {
        &self.entries[i].instances
    }

    /// The instance buffer of the model at place `i`.
    pub fn instances_buffer(&self, i: usize) -> (r: DraftInstanceBuffer)
        requires
            i < self@.len(),
        ensures
            r == self@[i as int].buffer,
    {
        self.entries[i].instances_buffer
    }

    /// Everything in the store as three lists of equal length: at each
    /// place a model, its instances and its instance buffer. The order is
    /// that of the store and does not change while nothing is added.
    pub fn models(&self) -> (r: (Vec<&DraftModel>, Vec<&Vec<DraftInstance>>, Vec<&DraftInstanceBuffer>))
        ensures
            r.0@.len() == self@.len(),
            r.1@.len() == self@.len(),
            r.2@.len() == self@.len(),
            forall|i: int| 0 <= i < self@.len() ==> (#[trigger] r.0@[i])@ == self@[i].model,
            forall|i: int| 0 <= i < self@.len() ==> (#[trigger] r.1@[i])@ == self@[i].instances,
            forall|i: int| 0 <= i < self@.len() ==> *(#[trigger] r.2@[i]) == self@[i].buffer,
    {
        let mut models: Vec<&DraftModel> = Vec::new();
        let mut instances: Vec<&Vec<DraftInstance>> = Vec::new();
        let mut buffers: Vec<&DraftInstanceBuffer> = Vec::new();
        let mut i: usize = 0;
        while i < self.entries.len()
            invariant
                i <= self.entries.len(),
                models@.len() == i,
                instances@.len() == i,
                buffers@.len() == i,
                forall|j: int| 0 <= j < i ==> (#[trigger] models@[j])@ == self@[j].model,
                forall|j: int| 0 <= j < i ==> (#[trigger] instances@[j])@ == self@[j].instances,
                forall|j: int| 0 <= j < i ==> *(#[trigger] buffers@[j]) == self@[j].buffer,
            decreases self.entries.len() - i,
        {
            models.push(&self.entries[i].model);
            instances.push(&self.entries[i].instances);
            buffers.push(&self.entries[i].instances_buffer);
            i += 1;
        }
        (models, instances, buffers)
    }
}

} // verus!
