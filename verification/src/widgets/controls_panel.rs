use vstd::prelude::*;
use vstd::string::StringExecFns;
use crate::controls::control_ui::{lemma_last_refresh_wins, BindingView, ControlBinding, UserEdit};
use crate::device::{
    listing_view, snapshots_view, AttachView, ControlDescriptor, ControlSnapshot, ControlWrite,
    DescriptorView, DeviceAttach, Listing, SnapshotView, WriteResult,
};
use crate::registry::{
    accepted_by, all_reset, applied_to, refresh_due, refreshed_from, requested_write, shows_value,
    Registry,
};

verus! {

/// One row of a group: a control, named by its id, or a line of text.
#[derive(Debug, PartialEq, Eq)]
pub enum PanelRow {
    /// The binding of the control with this id.
    Control(u32),
    /// A text to show, under a label.
    Message { label: String, text: String },
}

/// What a [`PanelRow`] stands for.
pub enum RowView {
    Control(u32),
    Message { label: Seq<char>, text: Seq<char> },
}

impl View for PanelRow {
    type V = RowView;

    open spec fn view(&self) -> RowView {
        match self {
            PanelRow::Control(id) => RowView::Control(*id),
            PanelRow::Message { label, text } => RowView::Message { label: label@, text: text@ },
        }
    }
}

/// The rows of `rows`, each as what it stands for.
pub open spec fn rows_view(rows: Seq<PanelRow>) -> Seq<RowView> {
    Seq::new(rows.len(), |i: int| rows[i]@)
}

/// A titled run of rows, shown together.
#[derive(Debug, PartialEq, Eq)]
pub struct ControlGroup {
    pub title: String,
    pub rows: Vec<PanelRow>,
}

/// What a [`ControlGroup`] stands for.
pub struct GroupView {
    pub title: Seq<char>,
    pub rows: Seq<RowView>,
}

impl View for ControlGroup {
    type V = GroupView;

    open spec fn view(&self) -> GroupView {
        GroupView { title: self.title@, rows: rows_view(self.rows@) }
    }
}

/// The groups of `groups`, each as what it stands for.
pub open spec fn groups_view(groups: Seq<ControlGroup>) -> Seq<GroupView> {
    Seq::new(groups.len(), |i: int| groups[i]@)
}

/// The descriptors of `snapshots`, in their order.
pub open spec fn descriptions_of(snapshots: Seq<SnapshotView>) -> Seq<DescriptorView> {
    Seq::new(snapshots.len(), |i: int| snapshots[i].description)
}

/// What closing a group gives: the group, unless it has no row.
pub open spec fn closed_group(title: Seq<char>, rows: Seq<RowView>) -> Seq<GroupView> {
    if rows.len() > 0 {
        seq![GroupView { title, rows }]
    } else {
        Seq::empty()
    }
}

/// The groups that `descriptions` give when read in order, with the group
/// `title` open and holding `rows` so far.
///
/// A disabled descriptor counts for nothing. A boundary closes the open
/// group and opens one under its own name. A descriptor that gets a binding
/// adds a row to the open group. The end of the descriptors closes the open
/// group. A group without rows is dropped when it is closed.
pub open spec fn groups_from(
    descriptions: Seq<DescriptorView>,
    title: Seq<char>,
    rows: Seq<RowView>,
) -> Seq<GroupView>
    decreases descriptions.len(),
{
    if descriptions.len() == 0 {
        closed_group(title, rows)
    } else {
        let first = descriptions.first();
        let rest = descriptions.drop_first();
        if first.is_boundary() {
            closed_group(title, rows) + groups_from(rest, first.name, Seq::empty())
        } else if first.is_bound() {
            groups_from(rest, title, rows.push(RowView::Control(first.id)))
        } else {
            groups_from(rest, title, rows)
        }
    }
}

/// The groups of a device that lists `descriptions`. Controls that come
/// before any boundary stand in a group titled "Controls".
pub open spec fn grouping(descriptions: Seq<DescriptorView>) -> Seq<GroupView> {
    groups_from(descriptions, "Controls"@, Seq::empty())
}

/// The registry that `base` becomes when the bindings for `snapshots` are
/// registered in order: one for each enabled control of a supported
/// category, a later binding replacing an earlier one of the same control.
pub open spec fn registered_onto(base: Map<u32, BindingView>, snapshots: Seq<SnapshotView>) -> Map<
    u32,
    BindingView,
>
    decreases snapshots.len(),
{
    if snapshots.len() == 0 {
        base
    } else {
        let before = registered_onto(base, snapshots.drop_last());
        let last = snapshots.last();
        if last.description.is_bound() {
            before.insert(last.description.id, BindingView::created(last.description, last.value)->0)
        } else {
            before
        }
    }
}

/// The registry of a device that lists `snapshots`.
pub open spec fn registered(snapshots: Seq<SnapshotView>) -> Map<u32, BindingView> {
    registered_onto(Map::empty(), snapshots)
}

/// Whether every control of `snapshots` that gets a binding can be bound: a
/// choice control comes with its list of entries.
pub open spec fn all_consistent(snapshots: Seq<SnapshotView>) -> bool {
    forall|i: int|
        0 <= i < snapshots.len() && (#[trigger] snapshots[i]).description.is_bound()
            ==> snapshots[i].description.is_consistent()
}

/// The one group shown in place of the controls when a device could not be
/// opened: titled "Error", with `message` as its only row.
pub open spec fn error_groups(message: Seq<char>) -> Seq<GroupView> {
    seq![
        GroupView {
            title: "Error"@,
            rows: seq![RowView::Message { label: "Message"@, text: message }],
        },
    ]
}

/// Closes the group `title` with `rows`: it joins `groups`, unless it has
/// no row.
fn close_group(groups: &mut Vec<ControlGroup>, title: String, rows: Vec<PanelRow>)
    ensures
        groups_view(final(groups)@) == groups_view(old(groups)@) + closed_group(
            title@,
            rows_view(rows@),
        ),
{
    if rows.len() > 0 {
        let group = ControlGroup { title, rows };
        groups.push(group);
        assert(groups_view(groups@) =~= groups_view(old(groups)@) + seq![group@]);
    } else {
        assert(groups_view(groups@) =~= groups_view(old(groups)@) + Seq::<GroupView>::empty());
    }
}

/// Whether [`create_controls_for_device`] can be called on `snapshots`.
pub fn can_bind(snapshots: &Vec<ControlSnapshot>) -> (bindable: bool)
    ensures
        bindable == all_consistent(snapshots_view(snapshots@)),
{
    let mut i: usize = 0;
    while i < snapshots.len()
        invariant
            i <= snapshots@.len(),
            forall|j: int|
                0 <= j < i && (#[trigger] snapshots_view(snapshots@)[j]).description.is_bound()
                    ==> snapshots_view(snapshots@)[j].description.is_consistent(),
        decreases snapshots@.len() - i,
    {
        let description = &snapshots[i].description;
        if description.is_bound() && !description.is_consistent() {
            assert(snapshots_view(snapshots@)[i as int].description == description@);
            return false;
        }
        i = i + 1;
    }
    true
}

/// Builds the groups and the bindings for the controls that a device
/// listed, and registers the bindings in `control_uis`.
///
/// Where the listing failed there is nothing to build: no group, and
/// `control_uis` as it was.
///
/// A choice control without a list of entries cannot be bound.
pub fn create_controls_for_device(listed: &Listing, control_uis: &mut Registry) -> (groups: Vec<
    ControlGroup,
>)
    requires
        listed matches Ok(snapshots) ==> all_consistent(snapshots_view(snapshots@)),
    ensures
        match listing_view(*listed) {
            Ok(snapshots) => {
                &&& groups_view(groups@) == grouping(descriptions_of(snapshots))
                &&& final(control_uis)@ == registered_onto(old(control_uis)@, snapshots)
                &&& row_count(groups_view(groups@)) == bound_count(descriptions_of(snapshots))
            },
            Err(_) => {
                &&& groups_view(groups@) == Seq::<GroupView>::empty()
                &&& final(control_uis)@ == old(control_uis)@
            },
        },
        forall|g: int| 0 <= g < groups@.len() ==> (#[trigger] groups@[g]).rows@.len() > 0,
        forall|g: int|
            0 <= g < groups@.len() ==> rows_resolve((#[trigger] groups@[g])@.rows, final(control_uis)@),
{
    let mut groups: Vec<ControlGroup> = Vec::new();
    let ctrls = match listed {
        Ok(ctrls) => ctrls,
        Err(_) => {
            assert(groups_view(groups@) =~= Seq::<GroupView>::empty());
            return groups;
        },
    };
    let ghost views = snapshots_view(ctrls@);
    let ghost descriptions = descriptions_of(views);
    let ghost base = control_uis@;
    let mut title = String::from_str("Controls");
    let mut rows: Vec<PanelRow> = Vec::new();
    let mut i: usize = 0;
    proof {
        assert(descriptions.skip(0) =~= descriptions);
        assert(rows_view(rows@) =~= Seq::<RowView>::empty());
        assert(groups_view(groups@) =~= Seq::<GroupView>::empty());
        assert(groups_view(groups@) + grouping(descriptions) =~= grouping(descriptions));
        assert(views.take(0) =~= Seq::<SnapshotView>::empty());
    }
    while i < ctrls.len()
        invariant
            i <= ctrls@.len(),
            views == snapshots_view(ctrls@),
            descriptions == descriptions_of(views),
            all_consistent(views),
            groups_view(groups@) + groups_from(descriptions.skip(i as int), title@, rows_view(rows@))
                == grouping(descriptions),
            control_uis@ == registered_onto(base, views.take(i as int)),
        decreases ctrls@.len() - i,
    {
        let ctrl = &ctrls[i];
        let ctrl_desc = &ctrl.description;
        let ghost rest = descriptions.skip(i as int + 1);
        let ghost shown = groups_view(groups@);
        let ghost open_title = title@;
        let ghost open_rows = rows_view(rows@);
        proof {
            assert(views[i as int] == ctrl@);
            assert(descriptions.skip(i as int).first() == ctrl_desc@);
            assert(descriptions.skip(i as int).drop_first() =~= rest);
            assert(views.take(i as int + 1).drop_last() =~= views.take(i as int));
            assert(views.take(i as int + 1).last() == ctrl@);
        }
        if ctrl_desc.is_boundary() {
            let mut closed_title = ctrl_desc.name.clone();
            core::mem::swap(&mut title, &mut closed_title);
            let mut closed_rows: Vec<PanelRow> = Vec::new();
            core::mem::swap(&mut rows, &mut closed_rows);
            close_group(&mut groups, closed_title, closed_rows);
            proof {
                assert(rows_view(rows@) =~= Seq::<RowView>::empty());
                assert((shown + closed_group(open_title, open_rows)) + groups_from(
                    rest,
                    ctrl_desc@.name,
                    Seq::empty(),
                ) =~= shown + (closed_group(open_title, open_rows) + groups_from(
                    rest,
                    ctrl_desc@.name,
                    Seq::empty(),
                )));
            }
        } else if ctrl_desc.is_bound() {
            let ctrl_ui = ControlBinding::create(ctrl_desc, &ctrl.value);
            match ctrl_ui {
                Ok(binding) => {
                    control_uis.insert(binding);
                    rows.push(PanelRow::Control(ctrl_desc.id));
                    proof {
                        assert(rows_view(rows@) =~= open_rows.push(RowView::Control(ctrl_desc@.id)));
                    }
                },
                Err(_) => {
                    assert(false);
                },
            }
        }
        i = i + 1;
    }
    proof {
        assert(descriptions.skip(i as int) =~= Seq::<DescriptorView>::empty());
        assert(views.take(i as int) =~= views);
    }
    close_group(&mut groups, title, rows);
    proof {
        lemma_no_group_is_empty(descriptions, "Controls"@, Seq::empty());
        lemma_rows_are_counted(descriptions, "Controls"@, Seq::empty());
        lemma_bound_controls_are_registered(base, views);
        lemma_rows_are_bound_controls(descriptions, "Controls"@, Seq::empty(), control_uis@.dom());
        assert forall|g: int| 0 <= g < groups@.len() implies (#[trigger] groups@[g]).rows@.len() > 0
            && rows_resolve(groups@[g]@.rows, control_uis@) by {
            assert(groups_view(groups@)[g] == groups@[g]@);
        }
    }
    groups
}

/// Builds the one group to show when a device could not be opened, with
/// `msg` as its only row.
pub fn create_group_with_error(msg: String) -> (groups: Vec<ControlGroup>)
    ensures
        groups_view(groups@) == error_groups(msg@),
{
    let mut rows: Vec<PanelRow> = Vec::new();
    rows.push(PanelRow::Message { label: String::from_str("Message"), text: msg });
    let err_group = ControlGroup { title: String::from_str("Error"), rows };
    let mut groups: Vec<ControlGroup> = Vec::new();
    groups.push(err_group);
    proof {
        assert(rows_view(err_group.rows@) =~= seq![
            RowView::Message { label: "Message"@, text: msg@ },
        ]);
        assert(groups_view(groups@) =~= error_groups(msg@));
    }
    groups
}

/// How many rows the groups of `groups` hold together.
pub open spec fn row_count(groups: Seq<GroupView>) -> nat
    decreases groups.len(),
{
    if groups.len() == 0 {
        0
    } else {
        groups.first().rows.len() + row_count(groups.drop_first())
    }
}

/// How many of `descriptions` get a binding: those that are enabled and of
/// a supported category.
pub open spec fn bound_count(descriptions: Seq<DescriptorView>) -> nat
    decreases descriptions.len(),
{
    if descriptions.len() == 0 {
        0
    } else {
        (if descriptions.first().is_bound() {
            1nat
        } else {
            0nat
        }) + bound_count(descriptions.drop_first())
    }
}

/// Whether one of `descriptions` gets a binding and has the id `id`.
pub open spec fn binds(descriptions: Seq<DescriptorView>, id: u32) -> bool {
    exists|k: int|
        0 <= k < descriptions.len() && (#[trigger] descriptions[k]).is_bound() && descriptions[k].id
            == id
}

/// Whether every row of `rows` is a control that `known` holds.
pub open spec fn rows_within(rows: Seq<RowView>, known: Set<u32>) -> bool {
    forall|r: int|
        0 <= r < rows.len() ==> (#[trigger] rows[r] matches RowView::Control(id) && known.contains(id))
}

/// The registry that `registry` becomes when the bindings are brought up to
/// date from `snapshots`, one snapshot after the other.
pub open spec fn refreshed_all(registry: Map<u32, BindingView>, snapshots: Seq<SnapshotView>) -> Map<
    u32,
    BindingView,
>
    decreases snapshots.len(),
{
    if snapshots.len() == 0 {
        registry
    } else {
        refreshed_from(
            refreshed_all(registry, snapshots.drop_last()),
            snapshots.last().description,
            snapshots.last().value,
        )
    }
}

/// Whether the bindings of `registry` can be brought up to date from
/// `snapshots`: a choice is given the list of entries to match against.
pub open spec fn all_accepted(registry: Map<u32, BindingView>, snapshots: Seq<SnapshotView>) -> bool {
    forall|i: int|
        0 <= i < snapshots.len() ==> accepted_by(registry, (#[trigger] snapshots[i]).description)
}

/// Whether `id` is the id of one of `snapshots`.
pub open spec fn lists(snapshots: Seq<SnapshotView>, id: u32) -> bool {
    exists|i: int| 0 <= i < snapshots.len() && (#[trigger] snapshots[i]).description.id == id
}

/// No group that the grouping gives is without rows, whatever group was
/// open when it began.
proof fn lemma_no_group_is_empty(descriptions: Seq<DescriptorView>, title: Seq<char>, rows: Seq<RowView>)
    ensures
        forall|g: int|
            0 <= g < groups_from(descriptions, title, rows).len() ==> (#[trigger] groups_from(
                descriptions,
                title,
                rows,
            )[g]).rows.len() > 0,
    decreases descriptions.len(),
{
    let all = groups_from(descriptions, title, rows);
    if descriptions.len() > 0 {
        let first = descriptions.first();
        let rest = descriptions.drop_first();
        if first.is_boundary() {
            let head = closed_group(title, rows);
            let tail = groups_from(rest, first.name, Seq::empty());
            lemma_no_group_is_empty(rest, first.name, Seq::empty());
            assert(all == head + tail);
            assert forall|g: int| 0 <= g < all.len() implies (#[trigger] all[g]).rows.len() > 0 by {
                if g >= head.len() {
                    assert(all[g] == tail[g - head.len()]);
                }
            }
        } else if first.is_bound() {
            lemma_no_group_is_empty(rest, title, rows.push(RowView::Control(first.id)));
            assert(all == groups_from(rest, title, rows.push(RowView::Control(first.id))));
        } else {
            lemma_no_group_is_empty(rest, title, rows);
            assert(all == groups_from(rest, title, rows));
        }
    }
}

/// A closed group counts with its rows, or not at all.
proof fn lemma_row_count_of_closed(title: Seq<char>, rows: Seq<RowView>, rest: Seq<GroupView>)
    ensures
        row_count(closed_group(title, rows) + rest) == rows.len() + row_count(rest),
{
    if rows.len() > 0 {
        let all = closed_group(title, rows) + rest;
        assert(all.first().rows == rows);
        assert(all.drop_first() =~= rest);
    } else {
        assert(closed_group(title, rows) + rest =~= rest);
    }
}

/// The groups hold as many rows as the open group had, and one more for
/// each descriptor that gets a binding.
proof fn lemma_rows_are_counted(descriptions: Seq<DescriptorView>, title: Seq<char>, rows: Seq<RowView>)
    ensures
        row_count(groups_from(descriptions, title, rows)) == rows.len() + bound_count(descriptions),
    decreases descriptions.len(),
{
    if descriptions.len() == 0 {
        lemma_row_count_of_closed(title, rows, Seq::empty());
        assert(closed_group(title, rows) + Seq::<GroupView>::empty() =~= closed_group(title, rows));
    } else {
        let first = descriptions.first();
        let rest = descriptions.drop_first();
        if first.is_boundary() {
            lemma_rows_are_counted(rest, first.name, Seq::empty());
            lemma_row_count_of_closed(title, rows, groups_from(rest, first.name, Seq::empty()));
        } else if first.is_bound() {
            lemma_rows_are_counted(rest, title, rows.push(RowView::Control(first.id)));
        } else {
            lemma_rows_are_counted(rest, title, rows);
        }
    }
}

/// Whatever a device lists, no group of its grouping is without rows, and
/// the groups hold as many rows together as there are descriptors that get
/// a binding: the enabled ones of a supported category.
pub proof fn lemma_grouping_shows_each_bound_control(descriptions: Seq<DescriptorView>)
    ensures
        forall|g: int|
            0 <= g < grouping(descriptions).len() ==> (#[trigger] grouping(descriptions)[g]).rows.len()
                > 0,
        row_count(grouping(descriptions)) == bound_count(descriptions),
{
    lemma_no_group_is_empty(descriptions, "Controls"@, Seq::empty());
    lemma_rows_are_counted(descriptions, "Controls"@, Seq::empty());
}

/// Every row that the grouping gives is a control: one that the open group
/// held already, or one of a descriptor that gets a binding.
proof fn lemma_rows_are_bound_controls(
    descriptions: Seq<DescriptorView>,
    title: Seq<char>,
    rows: Seq<RowView>,
    known: Set<u32>,
)
    requires
        rows_within(rows, known),
        forall|id: u32| binds(descriptions, id) ==> known.contains(id),
    ensures
        forall|g: int|
            0 <= g < groups_from(descriptions, title, rows).len() ==> rows_within(
                (#[trigger] groups_from(descriptions, title, rows)[g]).rows,
                known,
            ),
    decreases descriptions.len(),
{
    let all = groups_from(descriptions, title, rows);
    if descriptions.len() > 0 {
        let first = descriptions.first();
        let rest = descriptions.drop_first();
        assert forall|id: u32| binds(rest, id) implies known.contains(id) by {
            let k = choose|k: int|
                0 <= k < rest.len() && (#[trigger] rest[k]).is_bound() && rest[k].id == id;
            assert(descriptions[k + 1] == rest[k]);
            assert(binds(descriptions, id));
        }
        if first.is_boundary() {
            let head = closed_group(title, rows);
            let tail = groups_from(rest, first.name, Seq::empty());
            lemma_rows_are_bound_controls(rest, first.name, Seq::empty(), known);
            assert(all == head + tail);
            assert forall|g: int| 0 <= g < all.len() implies rows_within((#[trigger] all[g]).rows, known) by {
                if g >= head.len() {
                    assert(all[g] == tail[g - head.len()]);
                }
            }
        } else if first.is_bound() {
            let more = rows.push(RowView::Control(first.id));
            assert(descriptions[0].is_bound());
            assert(binds(descriptions, first.id));
            assert(rows_within(more, known));
            lemma_rows_are_bound_controls(rest, title, more, known);
            assert(all == groups_from(rest, title, more));
        } else {
            lemma_rows_are_bound_controls(rest, title, rows, known);
            assert(all == groups_from(rest, title, rows));
        }
    }
}

/// Registering keeps every control that the registry held, and adds the
/// control of every descriptor that gets a binding, and no other.
pub proof fn lemma_bound_controls_are_registered(base: Map<u32, BindingView>, snapshots: Seq<SnapshotView>)
    ensures
        forall|id: u32| base.contains_key(id) ==> registered_onto(base, snapshots).contains_key(id),
        forall|id: u32|
            binds(descriptions_of(snapshots), id) ==> registered_onto(base, snapshots).contains_key(id),
        forall|id: u32| #[trigger]
            registered_onto(base, snapshots).contains_key(id) ==> base.contains_key(id) || binds(
                descriptions_of(snapshots),
                id,
            ),
    decreases snapshots.len(),
{
    let descriptions = descriptions_of(snapshots);
    if snapshots.len() > 0 {
        let front = snapshots.drop_last();
        let last = snapshots.last();
        lemma_bound_controls_are_registered(base, front);
        assert forall|id: u32| binds(descriptions, id) implies registered_onto(
            base,
            snapshots,
        ).contains_key(id) by {
            let k = choose|k: int|
                0 <= k < descriptions.len() && (#[trigger] descriptions[k]).is_bound()
                    && descriptions[k].id == id;
            if k < front.len() {
                assert(descriptions_of(front)[k] == descriptions[k]);
                assert(binds(descriptions_of(front), id));
            }
        }
        assert forall|id: u32| #[trigger]
            registered_onto(base, snapshots).contains_key(id) implies base.contains_key(id) || binds(
            descriptions,
            id,
        ) by {
            if registered_onto(base, front).contains_key(id) {
                if !base.contains_key(id) {
                    let k = choose|k: int|
                        0 <= k < front.len() && (#[trigger] descriptions_of(front)[k]).is_bound()
                            && descriptions_of(front)[k].id == id;
                    assert(descriptions[k] == descriptions_of(front)[k]);
                }
            } else {
                assert(descriptions[snapshots.len() - 1] == last.description);
            }
        }
    }
}

/// Every row that the grouping of a device gives is a control that the
/// registry of that device holds.
pub proof fn lemma_rows_are_registered(snapshots: Seq<SnapshotView>)
    ensures
        forall|g: int|
            0 <= g < grouping(descriptions_of(snapshots)).len() ==> rows_within(
                (#[trigger] grouping(descriptions_of(snapshots))[g]).rows,
                registered(snapshots).dom(),
            ),
{
    lemma_bound_controls_are_registered(Map::empty(), snapshots);
    lemma_rows_are_bound_controls(
        descriptions_of(snapshots),
        "Controls"@,
        Seq::empty(),
        registered(snapshots).dom(),
    );
}

/// A refresh neither adds nor drops a binding, and leaves each binding with
/// its control and its kind.
pub proof fn lemma_refresh_keeps_bindings(registry: Map<u32, BindingView>, snapshots: Seq<SnapshotView>)
    ensures
        refreshed_all(registry, snapshots).dom() == registry.dom(),
        forall|id: u32| #[trigger]
            registry.contains_key(id) ==> {
                &&& refreshed_all(registry, snapshots)[id].id() == registry[id].id()
                &&& refreshed_all(registry, snapshots)[id] is Switch == registry[id] is Switch
                &&& refreshed_all(registry, snapshots)[id] is Range == registry[id] is Range
                &&& refreshed_all(registry, snapshots)[id] is Choice == registry[id] is Choice
                &&& refreshed_all(registry, snapshots)[id] is Action == registry[id] is Action
            },
    decreases snapshots.len(),
{
    if snapshots.len() > 0 {
        let front = snapshots.drop_last();
        let before = refreshed_all(registry, front);
        lemma_refresh_keeps_bindings(registry, front);
        assert(refreshed_all(registry, snapshots).dom() =~= registry.dom());
        assert forall|id: u32| #[trigger] registry.contains_key(id) implies {
            &&& refreshed_all(registry, snapshots)[id].id() == registry[id].id()
            &&& refreshed_all(registry, snapshots)[id] is Switch == registry[id] is Switch
            &&& refreshed_all(registry, snapshots)[id] is Range == registry[id] is Range
            &&& refreshed_all(registry, snapshots)[id] is Choice == registry[id] is Choice
            &&& refreshed_all(registry, snapshots)[id] is Action == registry[id] is Action
        } by {
            assert(before.contains_key(id));
        }
    }
}

/// A refresh leaves the binding of a control untouched if the control is
/// not among the snapshots it is made from.
pub proof fn lemma_unlisted_control_is_untouched(
    registry: Map<u32, BindingView>,
    snapshots: Seq<SnapshotView>,
    id: u32,
)
    requires
        !lists(snapshots, id),
    ensures
        refreshed_all(registry, snapshots).contains_key(id) == registry.contains_key(id),
        registry.contains_key(id) ==> refreshed_all(registry, snapshots)[id] == registry[id],
    decreases snapshots.len(),
{
    if snapshots.len() > 0 {
        let front = snapshots.drop_last();
        assert forall|i: int| 0 <= i < front.len() implies (#[trigger] front[i]).description.id != id by {
            assert(snapshots[i] == front[i]);
        }
        assert(snapshots[snapshots.len() - 1].description.id != id);
        lemma_unlisted_control_is_untouched(registry, front, id);
    }
}

/// The place of the last of `snapshots` that describes the control `id`, if
/// any of them does.
pub open spec fn last_listing(snapshots: Seq<SnapshotView>, id: u32) -> Option<int>
    decreases snapshots.len(),
{
    if snapshots.len() == 0 {
        None
    } else if snapshots.last().description.id == id {
        Some(snapshots.len() - 1)
    } else {
        last_listing(snapshots.drop_last(), id)
    }
}

/// After a refresh each binding shows what the last snapshot of its control
/// gave, and a binding whose control has no snapshot shows what it showed
/// before.
pub proof fn lemma_refresh_follows_the_last_listing(
    registry: Map<u32, BindingView>,
    snapshots: Seq<SnapshotView>,
    id: u32,
)
    requires
        registry.contains_key(id),
    ensures
        refreshed_all(registry, snapshots).contains_key(id),
        match last_listing(snapshots, id) {
            Some(k) => 0 <= k < snapshots.len() && snapshots[k].description.id == id && refreshed_all(
                registry,
                snapshots,
            )[id] == registry[id].refreshed(snapshots[k].description, snapshots[k].value),
            None => !lists(snapshots, id) && refreshed_all(registry, snapshots)[id] == registry[id],
        },
    decreases snapshots.len(),
{
    if snapshots.len() > 0 {
        let front = snapshots.drop_last();
        let last = snapshots.last();
        lemma_refresh_follows_the_last_listing(registry, front, id);
        let before = refreshed_all(registry, front);
        if last.description.id == id {
            match last_listing(front, id) {
                Some(k) => {
                    lemma_last_refresh_wins(
                        registry[id],
                        front[k].description,
                        front[k].value,
                        last.description,
                        last.value,
                    );
                },
                None => {},
            }
        } else {
            match last_listing(front, id) {
                Some(k) => {
                    assert(snapshots[k] == front[k]);
                },
                None => {
                    assert forall|i: int| 0 <= i < snapshots.len() implies (#[trigger] snapshots[i]).description.id
                        != id by {
                        if i < front.len() {
                            assert(front[i] == snapshots[i]);
                            assert(!lists(front, id));
                        }
                    }
                },
            }
        }
    }
}

/// A refresh made twice from the same listing changes nothing the second
/// time.
pub proof fn lemma_update_controls_is_idempotent(
    registry: Map<u32, BindingView>,
    snapshots: Seq<SnapshotView>,
)
    ensures
        refreshed_all(refreshed_all(registry, snapshots), snapshots) == refreshed_all(registry, snapshots),
{
    let once = refreshed_all(registry, snapshots);
    let twice = refreshed_all(once, snapshots);
    lemma_refresh_keeps_bindings(registry, snapshots);
    lemma_refresh_keeps_bindings(once, snapshots);
    assert forall|id: u32| once.contains_key(id) implies #[trigger] twice[id] == once[id] by {
        lemma_refresh_follows_the_last_listing(registry, snapshots, id);
        lemma_refresh_follows_the_last_listing(once, snapshots, id);
        match last_listing(snapshots, id) {
            Some(k) => {
                lemma_last_refresh_wins(
                    registry[id],
                    snapshots[k].description,
                    snapshots[k].value,
                    snapshots[k].description,
                    snapshots[k].value,
                );
            },
            None => {},
        }
    }
    assert(twice =~= once);
}

/// Whether [`update_controls`] can be called on `snapshots` for `control_uis`.
pub fn can_update(snapshots: &Vec<ControlSnapshot>, control_uis: &Registry) -> (accepted: bool)
    ensures
        accepted == all_accepted(control_uis@, snapshots_view(snapshots@)),
{
    let mut i: usize = 0;
    while i < snapshots.len()
        invariant
            i <= snapshots@.len(),
            forall|j: int|
                0 <= j < i ==> accepted_by(
                    control_uis@,
                    (#[trigger] snapshots_view(snapshots@)[j]).description,
                ),
        decreases snapshots@.len() - i,
    {
        if !control_uis.accepts(&snapshots[i].description) {
            assert(snapshots_view(snapshots@)[i as int].description == snapshots@[i as int].description@);
            return false;
        }
        i = i + 1;
    }
    true
}

/// Brings the bindings of `control_uis` up to date from what the device
/// listed anew: for each control that has a binding, first the enablement,
/// then the value. A control without a binding is passed over, and a
/// binding whose control is not listed is left as it is. Where the listing
/// failed nothing changes.
///
/// A choice cannot be matched against a description without entries.
pub fn update_controls(listed: &Listing, control_uis: &mut Registry)
    requires
        listed matches Ok(snapshots) ==> all_accepted(old(control_uis)@, snapshots_view(snapshots@)),
    ensures
        match listing_view(*listed) {
            Ok(snapshots) => {
                &&& final(control_uis)@ == refreshed_all(old(control_uis)@, snapshots)
                &&& forall|id: u32|
                    old(control_uis)@.contains_key(id) && !lists(snapshots, id)
                        ==> final(control_uis)@[id] == old(control_uis)@[id]
            },
            Err(_) => final(control_uis)@ == old(control_uis)@,
        },
        final(control_uis)@.dom() == old(control_uis)@.dom(),
{
    let descriptions = match listed {
        Ok(d) => d,
        Err(_) => {
            return ;
        },
    };
    let ghost views = snapshots_view(descriptions@);
    let ghost base = control_uis@;
    let mut i: usize = 0;
    proof {
        assert(views.take(0) =~= Seq::<SnapshotView>::empty());
    }
    while i < descriptions.len()
        invariant
            i <= descriptions@.len(),
            views == snapshots_view(descriptions@),
            all_accepted(base, views),
            control_uis@ == refreshed_all(base, views.take(i as int)),
        decreases descriptions@.len() - i,
    {
        let desc = &descriptions[i];
        proof {
            assert(views[i as int] == desc@);
            assert(views.take(i as int + 1).drop_last() =~= views.take(i as int));
            assert(views.take(i as int + 1).last() == desc@);
            lemma_refresh_keeps_bindings(base, views.take(i as int));
            assert(accepted_by(base, views[i as int].description));
            if control_uis@.contains_key(desc@.description.id) {
                assert(base.contains_key(desc@.description.id));
            }
        }
        control_uis.update(&desc.description, &desc.value);
        i = i + 1;
    }
    proof {
        assert(views.take(i as int) =~= views);
        lemma_refresh_keeps_bindings(base, views);
        assert forall|id: u32| base.contains_key(id) && !lists(views, id) implies control_uis@[id]
            == base[id] by {
            lemma_unlisted_control_is_untouched(base, views, id);
        }
    }
}

/// Whether a panel is attached to a device.
#[derive(Debug, PartialEq, Eq)]
pub enum PanelState {
    /// No device was attached yet.
    Unbound,
    /// The device at this path is attached.
    Bound(String),
    /// The device asked for could not be opened; the panel shows why.
    Error,
}

/// What a [`PanelState`] stands for.
pub enum PanelStateView {
    Unbound,
    Bound(Seq<char>),
    Error,
}

impl View for PanelState {
    type V = PanelStateView;

    open spec fn view(&self) -> PanelStateView {
        match self {
            PanelState::Unbound => PanelStateView::Unbound,
            PanelState::Bound(path) => PanelStateView::Bound(path@),
            PanelState::Error => PanelStateView::Error,
        }
    }
}

/// The controls of one device at a time: their bindings, and the groups
/// they are shown in.
///
/// What the panel holds always hangs together: no group is without rows,
/// every control named in a row has its binding, and there are bindings
/// only while a device is attached.
#[derive(Debug)]
pub struct ControlsPanel {
    state: PanelState,
    control_uis: Registry,
    pref_groups: Vec<ControlGroup>,
}

/// What a [`ControlsPanel`] stands for.
pub struct PanelView {
    /// Whether a device is attached, and which.
    pub state: PanelStateView,
    /// The binding of each control, by the control's id.
    pub registry: Map<u32, BindingView>,
    /// The groups, in the order in which they are shown.
    pub groups: Seq<GroupView>,
}

/// Whether each control among `rows` has a binding in `registry`.
pub open spec fn rows_resolve(rows: Seq<RowView>, registry: Map<u32, BindingView>) -> bool {
    forall|r: int|
        0 <= r < rows.len() ==> (#[trigger] rows[r] matches RowView::Control(id)
            ==> registry.contains_key(id))
}

/// Whether a panel can be attached with `attach`: where the device listed
/// its controls, each one that gets a binding can be bound.
pub open spec fn can_attach(attach: AttachView) -> bool {
    attach matches AttachView::Opened(Ok(snapshots)) ==> all_consistent(snapshots)
}

impl PanelView {
    /// The panel before any device was attached.
    pub open spec fn unbound() -> PanelView {
        PanelView { state: PanelStateView::Unbound, registry: Map::empty(), groups: Seq::empty() }
    }

    /// The panel after the attempt `attach` to attach the device at `path`,
    /// whatever the panel held before.
    ///
    /// A device that could not be opened leaves the one group that says
    /// so, and no binding. A device that could not list its controls is
    /// attached without groups and bindings.
    pub open spec fn attached(path: Seq<char>, attach: AttachView) -> PanelView {
        match attach {
            AttachView::OpenFailed(message) => PanelView {
                state: PanelStateView::Error,
                registry: Map::empty(),
                groups: error_groups(message),
            },
            AttachView::Opened(Err(_)) => PanelView {
                state: PanelStateView::Bound(path),
                registry: Map::empty(),
                groups: Seq::empty(),
            },
            AttachView::Opened(Ok(snapshots)) => PanelView {
                state: PanelStateView::Bound(path),
                registry: registered(snapshots),
                groups: grouping(descriptions_of(snapshots)),
            },
        }
    }

    /// Whether what the panel holds hangs together.
    pub open spec fn well_formed(self) -> bool {
        &&& forall|g: int| 0 <= g < self.groups.len() ==> (#[trigger] self.groups[g]).rows.len() > 0
        &&& forall|g: int|
            0 <= g < self.groups.len() ==> rows_resolve((#[trigger] self.groups[g]).rows, self.registry)
        &&& !(self.state is Bound) ==> forall|id: u32| !self.registry.contains_key(id)
    }

    /// Whether the panel can be refreshed from `listed`.
    pub open spec fn can_refresh(self, listed: Result<Seq<SnapshotView>, Seq<char>>) -> bool {
        listed matches Ok(snapshots) ==> all_accepted(self.registry, snapshots)
    }

    /// The panel after a refresh from what the device listed anew. Where
    /// the listing failed nothing changes.
    pub open spec fn refreshed(self, listed: Result<Seq<SnapshotView>, Seq<char>>) -> PanelView {
        match listed {
            Ok(snapshots) => PanelView { registry: refreshed_all(self.registry, snapshots), ..self },
            Err(_) => self,
        }
    }

    /// The panel after the write for `edit` on the control `id` was
    /// attempted; `written` says whether the device took it.
    pub open spec fn applied(self, id: u32, edit: UserEdit, written: bool) -> PanelView {
        PanelView { registry: applied_to(self.registry, id, edit, written), ..self }
    }

    /// The panel with every binding back at its default.
    pub open spec fn reset(self) -> PanelView {
        PanelView { registry: all_reset(self.registry), ..self }
    }
}

/// Whatever the attempt to attach gave, the panel it leaves hangs together.
pub proof fn lemma_attached_is_well_formed(path: Seq<char>, attach: AttachView)
    ensures
        PanelView::attached(path, attach).well_formed(),
{
    let panel = PanelView::attached(path, attach);
    match attach {
        AttachView::OpenFailed(message) => {
            assert(panel.groups[0].rows[0] is Message);
        },
        AttachView::Opened(Err(_)) => {},
        AttachView::Opened(Ok(snapshots)) => {
            lemma_no_group_is_empty(descriptions_of(snapshots), "Controls"@, Seq::empty());
            lemma_rows_are_registered(snapshots);
        },
    }
}

impl View for ControlsPanel {
    type V = PanelView;

    closed spec fn view(&self) -> PanelView {
        PanelView {
            state: self.state@,
            registry: self.control_uis@,
            groups: groups_view(self.pref_groups@),
        }
    }
}

impl ControlsPanel {
    /// What the panel holds hangs together, at every moment.
    #[verifier::type_invariant]
    spec fn hangs_together(&self) -> bool {
        self@.well_formed()
    }

    /// A panel to which no device was attached yet.
    pub fn unbound() -> (panel: ControlsPanel)
        ensures
            panel@ == PanelView::unbound(),
    {
        let pref_groups: Vec<ControlGroup> = Vec::new();
        assert(groups_view(pref_groups@) =~= Seq::<GroupView>::empty());
        ControlsPanel { state: PanelState::Unbound, control_uis: Registry::new(), pref_groups }
    }

    /// Whether [`ControlsPanel::new`] and [`ControlsPanel::switch_device`]
    /// can be called with `attach`.
    pub fn can_attach(attach: &DeviceAttach) -> (attachable: bool)
        ensures
            attachable == can_attach(attach@),
    {
        match attach {
            DeviceAttach::Opened(Ok(snapshots)) => can_bind(snapshots),
            _ => true,
        }
    }

    /// The panel for the device at `device_path`. `attach` is what the
    /// attempt to open the device and to list its controls gave.
    ///
    /// A choice control without a list of entries cannot be bound.
    pub fn new(device_path: String, attach: DeviceAttach) -> (panel: ControlsPanel)
        requires
            can_attach(attach@),
        ensures
            panel@ == PanelView::attached(device_path@, attach@),
    {
        let mut control_uis = Registry::new();
        proof {
            lemma_attached_is_well_formed(device_path@, attach@);
        }
        match attach {
            DeviceAttach::Opened(listed) => {
                let pref_groups = create_controls_for_device(&listed, &mut control_uis);
                ControlsPanel { state: PanelState::Bound(device_path), control_uis, pref_groups }
            },
            DeviceAttach::OpenFailed(message) => {
                let pref_groups = create_group_with_error(message);
                ControlsPanel { state: PanelState::Error, control_uis, pref_groups }
            },
        }
    }

    /// Turns the panel to the device at `device_path`. Nothing of the
    /// device that was attached before is kept: the bindings and the groups
    /// are those of the new device alone, or the one group that says why it
    /// could not be opened.
    ///
    /// A choice control without a list of entries cannot be bound.
    pub fn switch_device(&mut self, device_path: String, attach: DeviceAttach)
        requires
            can_attach(attach@),
        ensures
            final(self)@ == PanelView::attached(device_path@, attach@),
    {
        *self = ControlsPanel::new(device_path, attach);
    }

    /// Brings every binding back to its default.
    pub fn reset_defaults(&mut self)
        ensures
            final(self)@ == old(self)@.reset(),
    {
        proof {
            use_type_invariant(&*self);
        }
        // The panel is taken apart and put together again, so that it is
        // never seen with its bindings half changed.
        let mut panel = ControlsPanel::unbound();
        core::mem::swap(self, &mut panel);
        let ControlsPanel { state, mut control_uis, pref_groups } = panel;
        control_uis.reset_all_defaults();
        *self = ControlsPanel { state, control_uis, pref_groups };
    }

    /// The groups, in the order in which they are shown.
    pub fn get_pref_groups(&self) -> (groups: &Vec<ControlGroup>)
        ensures
            groups_view(groups@) == self@.groups,
            self@.well_formed(),
    {
        proof {
            use_type_invariant(self);
        }
        &self.pref_groups
    }

    /// The bindings.
    pub fn control_uis(&self) -> (registry: &Registry)
        ensures
            registry@ == self@.registry,
            self@.well_formed(),
    {
        proof {
            use_type_invariant(self);
        }
        &self.control_uis
    }

    /// Whether a device is attached, and which.
    pub fn state(&self) -> (state: &PanelState)
        ensures
            state@ == self@.state,
    {
        &self.state
    }

    /// Whether the value of the control that `description` describes has to
    /// be read from the device for a refresh: the control has a binding, and
    /// the binding shows a value.
    pub fn needs_value(&self, description: &ControlDescriptor) -> (needed: bool)
        ensures
            needed == shows_value(self@.registry, description@.id),
    {
        self.control_uis.needs_value(description)
    }

    /// Whether [`ControlsPanel::refresh`] can be called with `listed`.
    pub fn can_refresh(&self, listed: &Listing) -> (accepted: bool)
        ensures
            accepted == self@.can_refresh(listing_view(*listed)),
    {
        match listed {
            Ok(snapshots) => can_update(snapshots, &self.control_uis),
            Err(_) => true,
        }
    }

    /// Brings the bindings up to date from what the device listed anew. A
    /// binding whose control is not listed is left as it is; the groups
    /// stay as they are.
    ///
    /// A choice cannot be matched against a description without entries.
    pub fn refresh(&mut self, listed: &Listing)
        requires
            old(self)@.can_refresh(listing_view(*listed)),
        ensures
            final(self)@ == old(self)@.refreshed(listing_view(*listed)),
            listing_view(*listed) matches Ok(snapshots) ==> forall|id: u32|
                old(self)@.registry.contains_key(id) && !lists(snapshots, id) ==> final(self)@.registry[id]
                    == old(self)@.registry[id],
    {
        proof {
            use_type_invariant(&*self);
        }
        let mut panel = ControlsPanel::unbound();
        core::mem::swap(self, &mut panel);
        let ControlsPanel { state, mut control_uis, pref_groups } = panel;
        update_controls(listed, &mut control_uis);
        *self = ControlsPanel { state, control_uis, pref_groups };
    }

    /// The write to send to the device for `edit` on the control `id`; none
    /// where the control has no binding, or its binding does not take the
    /// edit.
    pub fn write_request(&self, id: u32, edit: UserEdit) -> (request: Option<ControlWrite>)
        ensures
            request == requested_write(self@.registry, id, edit),
    {
        self.control_uis.write_request(id, edit)
    }

    /// Records what became of the write for `edit` on the control `id`.
    /// Returns whether a refresh is called for.
    pub fn apply(&mut self, id: u32, edit: UserEdit, outcome: &WriteResult) -> (refresh: bool)
        ensures
            final(self)@ == old(self)@.applied(id, edit, outcome is Ok),
            refresh == refresh_due(old(self)@.registry, id, edit, outcome is Ok),
    {
        proof {
            use_type_invariant(&*self);
        }
        let mut panel = ControlsPanel::unbound();
        core::mem::swap(self, &mut panel);
        let ControlsPanel { state, mut control_uis, pref_groups } = panel;
        let refresh = control_uis.apply(id, edit, outcome);
        *self = ControlsPanel { state, control_uis, pref_groups };
        refresh
    }
}

} // verus!
