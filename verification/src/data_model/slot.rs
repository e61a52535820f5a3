//! Slots: the nodes of the scene graph.

use crate::codec::{
    deep, field_of, gather, gather_gives_each, gather_one_more, gather_stays_failed, gather_values,
    read_field, write_field, Wire,
};
use crate::data_model::{Worker, ID};
use crate::data_model::component::{Component, ComponentView};
use crate::data_model::field::{Field, FieldView};
use crate::data_model::primitives::{Float3, FloatQ};
use crate::data_model::reference::{Reference, ReferenceView};
use crate::json::{
    entries_view, find, items_view, lookup, lookup_after_push, lookup_is_part, push_entry,
    DecodeError, Json, JsonView,
};
use crate::serde_helpers::{list_or_empty, read_list_or_empty};
use crate::text::same_text;
use vstd::prelude::*;

verus! {

/// A node of the scene graph: its own attributes, each under an id, the
/// components attached to it, and its children in their order.
///
/// The parent is named, not owned: the tree owns from the top down. In a stub
/// (`is_reference_only`) nothing but the identity counts.
#[derive(Debug, PartialEq, Default)]
pub struct Slot {
    pub id: String,
    pub is_reference_only: bool,
    pub parent: Reference,
    pub name: Field<Option<String>>,
    pub tag: Field<Option<String>>,
    pub position: Field<Float3>,
    pub rotation: Field<FloatQ>,
    pub scale: Field<Float3>,
    pub is_active: Field<bool>,
    pub is_persistent: Field<bool>,
    pub order_offset: Field<i64>,
    pub components: Vec<Component>,
    pub children: Vec<Slot>,
}

/// What a [`Slot`] holds.
pub struct SlotView {
    pub id: Seq<char>,
    pub is_reference_only: bool,
    pub parent: ReferenceView,
    pub name: FieldView<Option<Seq<char>>>,
    pub tag: FieldView<Option<Seq<char>>>,
    pub position: FieldView<Float3>,
    pub rotation: FieldView<FloatQ>,
    pub scale: FieldView<Float3>,
    pub is_active: FieldView<bool>,
    pub is_persistent: FieldView<bool>,
    pub order_offset: FieldView<i64>,
    pub components: Seq<ComponentView>,
    pub children: Seq<SlotView>,
}

/// What a slot holds.
pub open spec fn slot_view(s: &Slot) -> SlotView
    decreases s,
{
    SlotView {
        id: s.id.deep_view(),
        is_reference_only: s.is_reference_only.deep_view(),
        parent: s.parent.deep_view(),
        name: s.name.deep_view(),
        tag: s.tag.deep_view(),
        position: s.position.deep_view(),
        rotation: s.rotation.deep_view(),
        scale: s.scale.deep_view(),
        is_active: s.is_active.deep_view(),
        is_persistent: s.is_persistent.deep_view(),
        order_offset: s.order_offset.deep_view(),
        components: s.components.deep_view(),
        children: slots_view(&s.children),
    }
}

/// What a list of slots holds.
pub open spec fn slots_view(list: &Vec<Slot>) -> Seq<SlotView>
    decreases list,
{
    Seq::new(
        list.len() as nat,
        |i: int|
            if 0 <= i < list.len() {
                slot_view(&list[i])
            } else {
                arbitrary()
            },
    )
}

impl View for Slot {
    type V = SlotView;

    open spec fn view(&self) -> SlotView {
        slot_view(self)
    }
}

impl DeepView for Slot {
    type V = SlotView;

    open spec fn deep_view(&self) -> SlotView {
        slot_view(self)
    }
}

impl ID for Slot {
    open spec fn id_spec(&self) -> Seq<char> {
        self.id@
    }

    fn id(&self) -> (r: &str) {
        self.id.as_str()
    }
}

impl Worker for Slot {
    open spec fn is_reference_only_spec(&self) -> bool {
        self.is_reference_only
    }

    fn is_reference_only(&self) -> (r: bool) {
        self.is_reference_only
    }
}

impl Slot {
    /// The id that is kept for the root of the world.
    pub fn root_slot_id() -> (r: &'static str)
        ensures
            r@ == "Root"@,
    {
        "Root"
    }

    /// Whether the slot is the root of the world: whether its id is the one kept
    /// for the root, whatever its name.
    pub fn is_root_slot(&self) -> (r: bool)
        ensures
            r == (self@.id == "Root"@),
    {
        same_text(self.id.as_str(), Self::root_slot_id())
    }
}

/// The document of a slot: an object with one entry for each attribute, the
/// components and the children.
pub open spec fn slot_doc(s: SlotView) -> JsonView
    decreases s,
{
    JsonView::Object(
        Seq::empty()
            .push(("id"@, <String as Wire>::doc_of(s.id)))
            .push(("isReferenceOnly"@, <bool as Wire>::doc_of(s.is_reference_only)))
            .push(("parent"@, <Reference as Wire>::doc_of(s.parent)))
            .push(("name"@, <Field<Option<String>> as Wire>::doc_of(s.name)))
            .push(("tag"@, <Field<Option<String>> as Wire>::doc_of(s.tag)))
            .push(("position"@, <Field<Float3> as Wire>::doc_of(s.position)))
            .push(("rotation"@, <Field<FloatQ> as Wire>::doc_of(s.rotation)))
            .push(("scale"@, <Field<Float3> as Wire>::doc_of(s.scale)))
            .push(("isActive"@, <Field<bool> as Wire>::doc_of(s.is_active)))
            .push(("isPersistent"@, <Field<bool> as Wire>::doc_of(s.is_persistent)))
            .push(("orderOffset"@, <Field<i64> as Wire>::doc_of(s.order_offset)))
            .push(("components"@, <Vec<Component> as Wire>::doc_of(s.components)))
            .push(("children"@, JsonView::Array(slot_docs(s.children)))),
    )
}

/// The documents of a list of slots, one for one.
pub open spec fn slot_docs(list: Seq<SlotView>) -> Seq<JsonView>
    decreases list,
{
    Seq::new(
        list.len(),
        |i: int|
            if 0 <= i < list.len() {
                slot_doc(list[i])
            } else {
                arbitrary()
            },
    )
}

/// The slot that a document stands for. Under `components` and `children`,
/// `null` stands for the empty list.
pub open spec fn slot_of(doc: JsonView) -> Result<SlotView, DecodeError>
    decreases doc, 2nat,
{
    match doc {
        JsonView::Object(entries) => {
            let id = field_of::<String>(entries, "id"@);
            let is_reference_only = field_of::<bool>(entries, "isReferenceOnly"@);
            let parent = field_of::<Reference>(entries, "parent"@);
            let name = field_of::<Field<Option<String>>>(entries, "name"@);
            let tag = field_of::<Field<Option<String>>>(entries, "tag"@);
            let position = field_of::<Field<Float3>>(entries, "position"@);
            let rotation = field_of::<Field<FloatQ>>(entries, "rotation"@);
            let scale = field_of::<Field<Float3>>(entries, "scale"@);
            let is_active = field_of::<Field<bool>>(entries, "isActive"@);
            let is_persistent = field_of::<Field<bool>>(entries, "isPersistent"@);
            let order_offset = field_of::<Field<i64>>(entries, "orderOffset"@);
            let components = list_or_empty::<Component>(lookup(entries, "components"@));
            let children = children_of(entries);
            if id is Err {
                Err(id->Err_0)
            } else if is_reference_only is Err {
                Err(is_reference_only->Err_0)
            } else if parent is Err {
                Err(parent->Err_0)
            } else if name is Err {
                Err(name->Err_0)
            } else if tag is Err {
                Err(tag->Err_0)
            } else if position is Err {
                Err(position->Err_0)
            } else if rotation is Err {
                Err(rotation->Err_0)
            } else if scale is Err {
                Err(scale->Err_0)
            } else if is_active is Err {
                Err(is_active->Err_0)
            } else if is_persistent is Err {
                Err(is_persistent->Err_0)
            } else if order_offset is Err {
                Err(order_offset->Err_0)
            } else if components is Err {
                Err(components->Err_0)
            } else if children is Err {
                Err(children->Err_0)
            } else {
                Ok(
                    SlotView {
                        id: id->Ok_0,
                        is_reference_only: is_reference_only->Ok_0,
                        parent: parent->Ok_0,
                        name: name->Ok_0,
                        tag: tag->Ok_0,
                        position: position->Ok_0,
                        rotation: rotation->Ok_0,
                        scale: scale->Ok_0,
                        is_active: is_active->Ok_0,
                        is_persistent: is_persistent->Ok_0,
                        order_offset: order_offset->Ok_0,
                        components: components->Ok_0,
                        children: children->Ok_0,
                    },
                )
            }
        },
        _ => Err(DecodeError::WrongType),
    }
}

/// The children that the entries of a slot give.
pub open spec fn children_of(entries: Seq<(Seq<char>, JsonView)>) -> Result<
    Seq<SlotView>,
    DecodeError,
>
    decreases entries, 2nat,
{
    match lookup(entries, "children"@) {
        None => Err(DecodeError::MissingField),
        Some(JsonView::Null) => Ok(Seq::empty()),
        Some(JsonView::Array(docs)) => {
            proof {
                lookup_is_part(entries, "children"@);
            }
            slots_of(docs)
        },
        Some(_) => Err(DecodeError::WrongType),
    }
}

/// The slots that a list of documents stands for: all of them, or the first
/// failure.
pub open spec fn slots_of(docs: Seq<JsonView>) -> Result<Seq<SlotView>, DecodeError>
    decreases docs, 1nat,
{
    gather(slot_outcomes(docs))
}

/// What each document of a list gives when it is read as a slot.
pub open spec fn slot_outcomes(docs: Seq<JsonView>) -> Seq<Result<SlotView, DecodeError>>
    decreases docs, 0nat,
{
    Seq::new(
        docs.len(),
        |i: int|
            if 0 <= i < docs.len() {
                slot_of(docs[i])
            } else {
                arbitrary()
            },
    )
}

/// Whether a slot comes back from its document as it went in: its
/// floating-point values are numbers or the not-a-number value that `"NaN"`
/// reads as, every component and object in it has its members in the order of
/// their names, and the same holds of its children.
pub open spec fn slot_sound(s: SlotView) -> bool
    decreases s,
{
    &&& <String as Wire>::sound(s.id)
    &&& <bool as Wire>::sound(s.is_reference_only)
    &&& <Reference as Wire>::sound(s.parent)
    &&& <Field<Option<String>> as Wire>::sound(s.name)
    &&& <Field<Option<String>> as Wire>::sound(s.tag)
    &&& <Field<Float3> as Wire>::sound(s.position)
    &&& <Field<FloatQ> as Wire>::sound(s.rotation)
    &&& <Field<Float3> as Wire>::sound(s.scale)
    &&& <Field<bool> as Wire>::sound(s.is_active)
    &&& <Field<bool> as Wire>::sound(s.is_persistent)
    &&& <Field<i64> as Wire>::sound(s.order_offset)
    &&& <Vec<Component> as Wire>::sound(s.components)
    &&& slots_sound(s.children)
}

/// Whether every slot of a list is sound.
pub open spec fn slots_sound(list: Seq<SlotView>) -> bool
    decreases list,
{
    forall|i: int| 0 <= i < list.len() ==> slot_sound(#[trigger] list[i])
}

/// Writes a slot as a document.
pub fn encode_slot(s: &Slot) -> (doc: Json)
    ensures
        doc@ == slot_doc(s@),
    decreases s,
{
    let mut entries: Vec<(String, Json)> = Vec::new();
    assert(entries_view(&entries) =~= Seq::empty());
    write_field(&mut entries, "id", &s.id);
    write_field(&mut entries, "isReferenceOnly", &s.is_reference_only);
    write_field(&mut entries, "parent", &s.parent);
    write_field(&mut entries, "name", &s.name);
    write_field(&mut entries, "tag", &s.tag);
    write_field(&mut entries, "position", &s.position);
    write_field(&mut entries, "rotation", &s.rotation);
    write_field(&mut entries, "scale", &s.scale);
    write_field(&mut entries, "isActive", &s.is_active);
    write_field(&mut entries, "isPersistent", &s.is_persistent);
    write_field(&mut entries, "orderOffset", &s.order_offset);
    write_field(&mut entries, "components", &s.components);
    let children = encode_slots(&s.children);
    push_entry(&mut entries, "children", Json::array(children));
    Json::object(entries)
}

/// Writes each slot of a list as a document.
pub fn encode_slots(list: &Vec<Slot>) -> (docs: Vec<Json>)
    ensures
        items_view(&docs) == slot_docs(slots_view(list)),
    decreases list,
{
    let mut docs: Vec<Json> = Vec::new();
    let mut i: usize = 0;
    while i < list.len()
        invariant
            i <= list.len(),
            docs.len() == i,
            forall|j: int| 0 <= j < i ==> (#[trigger] docs[j])@ == slot_doc(list[j]@),
        decreases list.len() - i,
    {
        docs.push(encode_slot(&list[i]));
        i += 1;
    }
    assert(items_view(&docs) =~= slot_docs(slots_view(list)));
    docs
}

/// Reads a slot from a document.
pub fn decode_slot(doc: &Json) -> (r: Result<Slot, DecodeError>)
    ensures
        deep(r) == slot_of(doc@),
    decreases doc, 2nat,
{
    match doc {
        Json::Object(entries) => {
            let id = read_field::<String>(entries, "id")?;
            let is_reference_only = read_field::<bool>(entries, "isReferenceOnly")?;
            let parent = read_field::<Reference>(entries, "parent")?;
            let name = read_field::<Field<Option<String>>>(entries, "name")?;
            let tag = read_field::<Field<Option<String>>>(entries, "tag")?;
            let position = read_field::<Field<Float3>>(entries, "position")?;
            let rotation = read_field::<Field<FloatQ>>(entries, "rotation")?;
            let scale = read_field::<Field<Float3>>(entries, "scale")?;
            let is_active = read_field::<Field<bool>>(entries, "isActive")?;
            let is_persistent = read_field::<Field<bool>>(entries, "isPersistent")?;
            let order_offset = read_field::<Field<i64>>(entries, "orderOffset")?;
            let components = read_list_or_empty::<Component>(find(entries, "components"))?;
            let children = match find(entries, "children") {
                None => {
                    return Err(DecodeError::MissingField);
                },
                Some(Json::Null) => {
                    let none: Vec<Slot> = Vec::new();
                    assert(slots_view(&none) =~= Seq::empty());
                    none
                },
                Some(Json::Array(docs)) => decode_slots(docs)?,
                Some(_) => {
                    return Err(DecodeError::WrongType);
                },
            };
            Ok(
                Slot {
                    id, is_reference_only, parent, name, tag, position, rotation, scale,
                    is_active, is_persistent, order_offset, components, children,
                },
            )
        },
        _ => Err(DecodeError::WrongType),
    }
}

/// Reads each document of a list as a slot, and stops at the first that is
/// none.
pub fn decode_slots(docs: &Vec<Json>) -> (r: Result<Vec<Slot>, DecodeError>)
    ensures
        match r {
            Ok(list) => slots_of(items_view(docs)) == Ok::<Seq<SlotView>, DecodeError>(
                slots_view(&list),
            ),
            Err(e) => slots_of(items_view(docs)) == Err::<Seq<SlotView>, DecodeError>(e),
        },
    decreases docs, 1nat,
{
    let ghost all = items_view(docs);
    let ghost outcomes = slot_outcomes(all);
    let mut list: Vec<Slot> = Vec::new();
    let mut i: usize = 0;
    assert(outcomes.take(0) =~= Seq::empty());
    assert(slots_view(&list) =~= Seq::empty());
    while i < docs.len()
        invariant
            i <= docs.len(),
            all == items_view(docs),
            outcomes.len() == docs.len(),
            forall|j: int| 0 <= j < docs.len() ==> outcomes[j] == slot_of(docs[j]@),
            slots_of(all) == gather(outcomes),
            gather(outcomes.take(i as int)) == Ok::<Seq<SlotView>, DecodeError>(slots_view(&list)),
        decreases docs.len() - i,
    {
        proof {
            gather_one_more(outcomes.take(i as int), outcomes[i as int]);
            assert(outcomes.take(i as int).push(outcomes[i as int]) =~= outcomes.take(i + 1));
        }
        match decode_slot(&docs[i]) {
            Ok(s) => {
                let ghost before = slots_view(&list);
                list.push(s);
                assert(slots_view(&list) =~= before.push(s@));
            },
            Err(e) => {
                proof {
                    gather_stays_failed(outcomes, i + 1);
                }
                return Err(e);
            },
        }
        i += 1;
    }
    assert(outcomes.take(i as int) =~= outcomes);
    Ok(list)
}

/// Whether every component and object in a slot, or below it, has its members
/// in the order of their names.
pub open spec fn slot_well_named(s: SlotView) -> bool
    decreases s,
{
    &&& forall|i: int|
        0 <= i < s.components.len() ==> Component::well_named(#[trigger] s.components[i])
    &&& slots_well_named(s.children)
}

/// Whether every component and object in a list of slots has its members in
/// the order of their names.
pub open spec fn slots_well_named(list: Seq<SlotView>) -> bool
    decreases list,
{
    forall|i: int| 0 <= i < list.len() ==> slot_well_named(#[trigger] list[i])
}

/// What is read from a document has its names in order.
pub proof fn read_slot_is_well_named(doc: JsonView)
    ensures
        slot_of(doc) matches Ok(s) ==> slot_well_named(s),
    decreases doc, 1nat,
{
    if let Ok(s) = slot_of(doc) {
        let entries = doc->Object_0;
        if let Some(JsonView::Array(docs)) = lookup(entries, "components"@) {
            let outcomes = Seq::new(docs.len(), |i: int| <Component as Wire>::value_of(docs[i]));
            gather_gives_each(outcomes);
            assert forall|i: int| 0 <= i < s.components.len() implies Component::well_named(
                #[trigger] s.components[i],
            ) by {
                if let JsonView::Object(inner) = docs[i] {
                    Component::read_is_well_named(inner);
                }
            }
        }
        if let Some(JsonView::Array(docs)) = lookup(entries, "children"@) {
            lookup_is_part(entries, "children"@);
            read_slots_are_well_named(docs);
        }
    }
}

/// What is read from a list of documents has its names in order.
pub proof fn read_slots_are_well_named(docs: Seq<JsonView>)
    ensures
        slots_of(docs) matches Ok(list) ==> slots_well_named(list),
    decreases docs, 0nat,
{
    gather_gives_each(slot_outcomes(docs));
    if let Ok(list) = slots_of(docs) {
        assert forall|i: int| 0 <= i < list.len() implies slot_well_named(#[trigger] list[i]) by {
            read_slot_is_well_named(docs[i]);
        }
    }
}

/// A slot whose document holds `null` under `components` has no components,
/// and one whose document holds `null` under `children` has no children.
pub proof fn null_lists_of_a_slot_are_empty(doc: JsonView)
    requires
        doc is Object,
        slot_of(doc) is Ok,
    ensures
        lookup(doc->Object_0, "components"@) == Some(JsonView::Null) ==> slot_of(
            doc,
        )->Ok_0.components.len() == 0,
        lookup(doc->Object_0, "children"@) == Some(JsonView::Null) ==> slot_of(
            doc,
        )->Ok_0.children.len() == 0,
{
}

/// A sound slot comes back from its document as it went in.
pub proof fn slot_round_trip(s: SlotView)
    requires
        slot_sound(s),
    ensures
        slot_of(slot_doc(s)) == Ok::<SlotView, DecodeError>(s),
    decreases s,
{
    broadcast use lookup_after_push;

    reveal_strlit("id");
    reveal_strlit("isReferenceOnly");
    reveal_strlit("parent");
    reveal_strlit("name");
    reveal_strlit("tag");
    reveal_strlit("position");
    reveal_strlit("rotation");
    reveal_strlit("scale");
    reveal_strlit("isActive");
    reveal_strlit("isPersistent");
    reveal_strlit("orderOffset");
    reveal_strlit("components");
    reveal_strlit("children");
    assert("id"@.len() == 2 && "id"@[0] == 'i' && "id"@[1] == 'd');
    assert("isReferenceOnly"@.len() == 15 && "isReferenceOnly"@[0] == 'i' &&
        "isReferenceOnly"@[1] == 's' && "isReferenceOnly"@[2] == 'R' &&
        "isReferenceOnly"@[3] == 'e' && "isReferenceOnly"@[4] == 'f' &&
        "isReferenceOnly"@[5] == 'e' && "isReferenceOnly"@[6] == 'r' &&
        "isReferenceOnly"@[7] == 'e' && "isReferenceOnly"@[8] == 'n' &&
        "isReferenceOnly"@[9] == 'c' && "isReferenceOnly"@[10] == 'e' &&
        "isReferenceOnly"@[11] == 'O' && "isReferenceOnly"@[12] == 'n' &&
        "isReferenceOnly"@[13] == 'l' && "isReferenceOnly"@[14] == 'y');
    assert("parent"@.len() == 6 && "parent"@[0] == 'p' && "parent"@[1] == 'a' &&
        "parent"@[2] == 'r' && "parent"@[3] == 'e' && "parent"@[4] == 'n' && "parent"@[5] == 't');
    assert("name"@.len() == 4 && "name"@[0] == 'n' && "name"@[1] == 'a' && "name"@[2] == 'm' &&
        "name"@[3] == 'e');
    assert("tag"@.len() == 3 && "tag"@[0] == 't' && "tag"@[1] == 'a' && "tag"@[2] == 'g');
    assert("position"@.len() == 8 && "position"@[0] == 'p' && "position"@[1] == 'o' &&
        "position"@[2] == 's' && "position"@[3] == 'i' && "position"@[4] == 't' &&
        "position"@[5] == 'i' && "position"@[6] == 'o' && "position"@[7] == 'n');
    assert("rotation"@.len() == 8 && "rotation"@[0] == 'r' && "rotation"@[1] == 'o' &&
        "rotation"@[2] == 't' && "rotation"@[3] == 'a' && "rotation"@[4] == 't' &&
        "rotation"@[5] == 'i' && "rotation"@[6] == 'o' && "rotation"@[7] == 'n');
    assert("scale"@.len() == 5 && "scale"@[0] == 's' && "scale"@[1] == 'c' &&
        "scale"@[2] == 'a' && "scale"@[3] == 'l' && "scale"@[4] == 'e');
    assert("isActive"@.len() == 8 && "isActive"@[0] == 'i' && "isActive"@[1] == 's' &&
        "isActive"@[2] == 'A' && "isActive"@[3] == 'c' && "isActive"@[4] == 't' &&
        "isActive"@[5] == 'i' && "isActive"@[6] == 'v' && "isActive"@[7] == 'e');
    assert("isPersistent"@.len() == 12 && "isPersistent"@[0] == 'i' &&
        "isPersistent"@[1] == 's' && "isPersistent"@[2] == 'P' && "isPersistent"@[3] == 'e' &&
        "isPersistent"@[4] == 'r' && "isPersistent"@[5] == 's' && "isPersistent"@[6] == 'i' &&
        "isPersistent"@[7] == 's' && "isPersistent"@[8] == 't' && "isPersistent"@[9] == 'e' &&
        "isPersistent"@[10] == 'n' && "isPersistent"@[11] == 't');
    assert("orderOffset"@.len() == 11 && "orderOffset"@[0] == 'o' && "orderOffset"@[1] == 'r' &&
        "orderOffset"@[2] == 'd' && "orderOffset"@[3] == 'e' && "orderOffset"@[4] == 'r' &&
        "orderOffset"@[5] == 'O' && "orderOffset"@[6] == 'f' && "orderOffset"@[7] == 'f' &&
        "orderOffset"@[8] == 's' && "orderOffset"@[9] == 'e' && "orderOffset"@[10] == 't');
    assert("components"@.len() == 10 && "components"@[0] == 'c' && "components"@[1] == 'o' &&
        "components"@[2] == 'm' && "components"@[3] == 'p' && "components"@[4] == 'o' &&
        "components"@[5] == 'n' && "components"@[6] == 'e' && "components"@[7] == 'n' &&
        "components"@[8] == 't' && "components"@[9] == 's');
    assert("children"@.len() == 8 && "children"@[0] == 'c' && "children"@[1] == 'h' &&
        "children"@[2] == 'i' && "children"@[3] == 'l' && "children"@[4] == 'd' &&
        "children"@[5] == 'r' && "children"@[6] == 'e' && "children"@[7] == 'n');
    <String as Wire>::round_trip(s.id);
    <bool as Wire>::round_trip(s.is_reference_only);
    <Reference as Wire>::round_trip(s.parent);
    <Field<Option<String>> as Wire>::round_trip(s.name);
    <Field<Option<String>> as Wire>::round_trip(s.tag);
    <Field<Float3> as Wire>::round_trip(s.position);
    <Field<FloatQ> as Wire>::round_trip(s.rotation);
    <Field<Float3> as Wire>::round_trip(s.scale);
    <Field<bool> as Wire>::round_trip(s.is_active);
    <Field<bool> as Wire>::round_trip(s.is_persistent);
    <Field<i64> as Wire>::round_trip(s.order_offset);
    <Vec<Component> as Wire>::round_trip(s.components);
    slots_round_trip(s.children);
}

/// The documents of sound slots give the slots back.
pub proof fn slots_round_trip(list: Seq<SlotView>)
    requires
        slots_sound(list),
    ensures
        slots_of(slot_docs(list)) == Ok::<Seq<SlotView>, DecodeError>(list),
    decreases list,
{
    let outcomes = slot_outcomes(slot_docs(list));
    assert forall|i: int| 0 <= i < list.len() implies outcomes[i] == Ok::<SlotView, DecodeError>(
        list[i],
    ) by {
        slot_round_trip(list[i]);
    }
    gather_values(outcomes, list);
}

impl Wire for Slot {
    open spec fn doc_of(v: SlotView) -> JsonView {
        slot_doc(v)
    }

    open spec fn value_of(doc: JsonView) -> Result<SlotView, DecodeError> {
        slot_of(doc)
    }

    open spec fn absent() -> Result<SlotView, DecodeError> {
        Err(DecodeError::MissingField)
    }

    open spec fn sound(v: SlotView) -> bool {
        slot_sound(v)
    }

    fn encode(&self) -> (doc: Json) {
        encode_slot(self)
    }

    fn decode(doc: &Json) -> (r: Result<Slot, DecodeError>) {
        decode_slot(doc)
    }

    fn decode_absent() -> (r: Result<Slot, DecodeError>) {
        Err(DecodeError::MissingField)
    }

    proof fn round_trip(v: SlotView) {
        slot_round_trip(v);
    }
}

} // verus!
