use std::collections::HashMap;
use vstd::prelude::*;
use vstd::std_specs::hash::spec_keys_iter;
use vstd::std_specs::iter::IteratorSpec;
use crate::controls::control_ui::{BindingView, ControlBinding, ControlUi, UserEdit};
use crate::device::{read_view, ControlDescriptor, ControlWrite, DescriptorView, RawValue, ReadResult, WriteResult};

verus! {

broadcast use vstd::std_specs::hash::group_hash_axioms;

/// The live bindings of one device, each found by the id of its control.
#[derive(Debug)]
pub struct Registry {
    bindings: HashMap<u32, ControlBinding>,
}

/// The bindings of `bindings`, each as what it stands for.
spec fn bindings_view(bindings: Map<u32, ControlBinding>) -> Map<u32, BindingView> {
    bindings.map_values(|binding: ControlBinding| binding@)
}

/// Whether each binding of `bindings` stands under the id of its control.
spec fn keyed_by_id(bindings: Map<u32, ControlBinding>) -> bool {
    forall|id: u32| bindings.contains_key(id) ==> (#[trigger] bindings[id])@.id() == id
}

/// The registry that `registry` becomes when the binding of the control
/// that `description` describes is brought up to date: first its
/// enablement, then its value. Nothing changes where the control has no
/// binding.
pub open spec fn refreshed_from(
    registry: Map<u32, BindingView>,
    description: DescriptorView,
    read: Result<RawValue, Seq<char>>,
) -> Map<u32, BindingView> {
    if registry.contains_key(description.id) {
        registry.insert(description.id, registry[description.id].refreshed(description, read))
    } else {
        registry
    }
}

/// The registry that `registry` becomes when the write for `edit` on the
/// control `id` was attempted; `written` says whether the device took it.
pub open spec fn applied_to(
    registry: Map<u32, BindingView>,
    id: u32,
    edit: UserEdit,
    written: bool,
) -> Map<u32, BindingView> {
    if registry.contains_key(id) {
        registry.insert(id, registry[id].applied(edit, written))
    } else {
        registry
    }
}

/// The write that `edit` on the control `id` calls for; none where the
/// control has no binding in `registry`, or its binding does not take the
/// edit.
pub open spec fn requested_write(registry: Map<u32, BindingView>, id: u32, edit: UserEdit) -> Option<
    ControlWrite,
> {
    if registry.contains_key(id) {
        registry[id].write_for(edit)
    } else {
        None
    }
}

/// Whether the controls are to be refreshed after the write for `edit` on
/// the control `id` was attempted; `written` says whether the device took
/// it.
pub open spec fn refresh_due(registry: Map<u32, BindingView>, id: u32, edit: UserEdit, written: bool) -> bool {
    registry.contains_key(id) && registry[id].refresh_after(edit, written)
}

/// Whether the control `id` has a binding in `registry` that shows a value
/// read from the device.
pub open spec fn shows_value(registry: Map<u32, BindingView>, id: u32) -> bool {
    registry.contains_key(id) && registry[id].has_value()
}

/// Whether the binding that the control of `description` has in
/// `registry`, if it has one, can be brought up to date from `description`.
pub open spec fn accepted_by(registry: Map<u32, BindingView>, description: DescriptorView) -> bool {
    registry.contains_key(description.id) ==> registry[description.id].accepts(description)
}

/// The registry with every binding back at its default.
pub open spec fn all_reset(registry: Map<u32, BindingView>) -> Map<u32, BindingView> {
    registry.map_values(|binding: BindingView| binding.reset())
}

impl View for Registry {
    type V = Map<u32, BindingView>;

    closed spec fn view(&self) -> Map<u32, BindingView> {
        bindings_view(self.bindings@)
    }
}

impl Registry {
    /// Each binding stands under the id of its control.
    #[verifier::type_invariant]
    spec fn well_formed(&self) -> bool {
        keyed_by_id(self.bindings@)
    }

    /// A registry without bindings.
    pub fn new() -> (registry: Registry)
        ensures
            registry@ == Map::<u32, BindingView>::empty(),
    {
        let registry = Registry { bindings: HashMap::new() };
        assert(registry@ =~= Map::<u32, BindingView>::empty());
        registry
    }

    /// Drops every binding.
    pub fn clear(&mut self)
        ensures
            final(self)@ == Map::<u32, BindingView>::empty(),
    {
        self.bindings = HashMap::new();
        assert(self@ =~= Map::<u32, BindingView>::empty());
    }

    /// How many bindings there are.
    pub fn len(&self) -> (count: usize)
        ensures
            self@.dom().finite(),
            count == self@.dom().len(),
    {
        assert(self@.dom() =~= self.bindings@.dom());
        self.bindings.len()
    }

    /// Whether there is no binding at all.
    pub fn is_empty(&self) -> (empty: bool)
        ensures
            empty <==> (forall|id: u32| !self@.contains_key(id)),
    {
        proof {
            assert(self@.dom() =~= self.bindings@.dom());
            if self.bindings@.dom().len() > 0 {
                let id = self.bindings@.dom().choose();
                assert(self@.contains_key(id));
            } else {
                assert(self.bindings@.dom() =~= Set::<u32>::empty());
            }
        }
        self.bindings.len() == 0
    }

    /// Whether the control `id` has a binding.
    pub fn contains(&self, id: u32) -> (found: bool)
        ensures
            found == self@.contains_key(id),
    {
        self.bindings.contains_key(&id)
    }

    /// The binding of the control `id`, if it has one.
    pub fn get(&self, id: u32) -> (binding: Option<&ControlBinding>)
        ensures
            match binding {
                Some(b) => self@.contains_key(id) && self@[id] == b@ && b@.id() == id,
                None => !self@.contains_key(id),
            },
    {
        proof {
            use_type_invariant(self);
        }
        self.bindings.get(&id)
    }

    /// Registers `binding` under the id of its control. A binding that the
    /// control had before is replaced.
    pub fn insert(&mut self, binding: ControlBinding)
        ensures
            final(self)@ == old(self)@.insert(binding@.id(), binding@),
    {
        proof {
            use_type_invariant(&*self);
        }
        // The map is taken out and put back, so that the registry is never
        // seen half changed.
        let mut bindings: HashMap<u32, ControlBinding> = HashMap::new();
        core::mem::swap(&mut self.bindings, &mut bindings);
        let ghost before = bindings@;
        let id = binding.id();
        bindings.insert(id, binding);
        assert(bindings_view(bindings@) =~= bindings_view(before).insert(binding@.id(), binding@));
        self.bindings = bindings;
    }

    /// Whether the value of the control that `description` describes has to
    /// be read from the device before [`Registry::update`] is called for it:
    /// the control has a binding, and the binding shows a value.
    pub fn needs_value(&self, description: &ControlDescriptor) -> (needed: bool)
        ensures
            needed == shows_value(self@, description@.id),
    {
        match self.get(description.id) {
            Some(binding) => binding.has_value(),
            None => false,
        }
    }

    /// Whether [`Registry::update`] can be called for `description`: the
    /// binding of its control, if there is one, can be brought up to date
    /// from it.
    pub fn accepts(&self, description: &ControlDescriptor) -> (accepted: bool)
        ensures
            accepted == accepted_by(self@, description@),
    {
        match self.get(description.id) {
            Some(binding) => binding.accepts(description),
            None => true,
        }
    }

    /// Brings the binding of the control that `description` describes up to
    /// date: first its enablement, then its value, taken from `read`.
    /// Nothing changes where the control has no binding. Returns whether it
    /// has one.
    pub fn update(&mut self, description: &ControlDescriptor, read: &ReadResult) -> (found: bool)
        requires
            accepted_by(old(self)@, description@),
        ensures
            final(self)@ == refreshed_from(old(self)@, description@, read_view(*read)),
            found == old(self)@.contains_key(description@.id),
    {
        proof {
            use_type_invariant(&*self);
        }
        let mut bindings: HashMap<u32, ControlBinding> = HashMap::new();
        core::mem::swap(&mut self.bindings, &mut bindings);
        let ghost before = bindings@;
        let found = match bindings.remove(&description.id) {
            Some(mut ctrl_ui) => {
                ctrl_ui.update_state(description);
                ctrl_ui.update_value(description, read);
                bindings.insert(description.id, ctrl_ui);
                true
            },
            None => false,
        };
        assert(bindings_view(bindings@) =~= refreshed_from(
            bindings_view(before),
            description@,
            read_view(*read),
        ));
        self.bindings = bindings;
        found
    }

    /// The write to send to the device for `edit` on the control `id`; none
    /// where the control has no binding, or its binding does not take the
    /// edit.
    pub fn write_request(&self, id: u32, edit: UserEdit) -> (request: Option<ControlWrite>)
        ensures
            request == requested_write(self@, id, edit),
    {
        match self.get(id) {
            Some(binding) => binding.write_request(edit),
            None => None,
        }
    }

    /// Records what became of the write for `edit` on the control `id`.
    /// Returns whether the other controls are to be refreshed.
    pub fn apply(&mut self, id: u32, edit: UserEdit, outcome: &WriteResult) -> (refresh: bool)
        ensures
            final(self)@ == applied_to(old(self)@, id, edit, outcome is Ok),
            refresh == refresh_due(old(self)@, id, edit, outcome is Ok),
    {
        proof {
            use_type_invariant(&*self);
        }
        let mut bindings: HashMap<u32, ControlBinding> = HashMap::new();
        core::mem::swap(&mut self.bindings, &mut bindings);
        let ghost before = bindings@;
        let refresh = match bindings.remove(&id) {
            Some(mut ctrl_ui) => {
                let refresh = ctrl_ui.apply(edit, outcome);
                bindings.insert(id, ctrl_ui);
                refresh
            },
            None => false,
        };
        assert(bindings_view(bindings@) =~= applied_to(bindings_view(before), id, edit, outcome is Ok));
        self.bindings = bindings;
        refresh
    }

    /// Brings every binding back to its default.
    pub fn reset_all_defaults(&mut self)
        ensures
            final(self)@ == all_reset(old(self)@),
    {
        proof {
            use_type_invariant(&*self);
        }
        let mut bindings: HashMap<u32, ControlBinding> = HashMap::new();
        core::mem::swap(&mut self.bindings, &mut bindings);
        let ghost before = bindings@;
        let mut ids: Vec<u32> = Vec::new();
        for id in keys: bindings.keys()
            invariant
                keys.seq() == spec_keys_iter(&bindings).remaining(),
                ids@.len() == keys.index(),
                forall|j: int| 0 <= j < ids@.len() ==> ids@[j] == *keys.seq()[j],
        {
            ids.push(*id);
        }
        proof {
            assert(ids@ =~= spec_keys_iter(&bindings).remaining().unref());
        }
        let mut i: usize = 0;
        while i < ids.len()
            invariant
                i <= ids@.len(),
                ids@.no_duplicates(),
                ids@.to_set() == before.dom(),
                bindings@.dom() == before.dom(),
                keyed_by_id(bindings@),
                forall|j: int| 0 <= j < i ==> (#[trigger] bindings@[ids@[j]])@ == before[ids@[j]]@.reset(),
                forall|j: int| i <= j < ids@.len() ==> (#[trigger] bindings@[ids@[j]]) == before[ids@[j]],
            decreases ids@.len() - i,
        {
            let id = ids[i];
            match bindings.remove(&id) {
                Some(mut control) => {
                    control.reset_default();
                    bindings.insert(id, control);
                },
                None => {},
            }
            i = i + 1;
        }
        assert(bindings_view(bindings@) =~= all_reset(bindings_view(before)));
        self.bindings = bindings;
    }
}

} // verus!
