use vstd::prelude::*;

use crate::editor::{
    append_slot_rows, empty_form, remove_slot_rows, run, step, EditorModel, FamilyRows, UiEvent,
};
use crate::table::{
    has_key, insert_row, keys_unique, lemma_index_of, lemma_insert_row, lemma_remove_key,
    lookup, remove_key,
};

verus! {

/// The tables of a model have unique keys.
pub open spec fn model_wf<D>(m: EditorModel<D>) -> bool {
    &&& keys_unique(m.fonts)
    &&& keys_unique(m.families)
    &&& m.paths matches Some(p) ==> keys_unique(p)
}

/// Adding a font that was read successfully stores its data under the identifier buffer's
/// value, records its path when there is a registry, clears both buffers and the error
/// message, closes the form, and leaves the families alone.
pub proof fn add_font_success<D>(m: EditorModel<D>, d: D)
    requires
        model_wf(m),
        m.form.adding,
    ensures
        lookup(step(m, UiEvent::AddFont(Ok(d))).fonts, m.form.name) == Some(d),
        step(m, UiEvent::AddFont(Ok(d))).form == empty_form(),
        step(m, UiEvent::AddFont(Ok(d))).families == m.families,
        step(m, UiEvent::AddFont(Ok(d))).paths matches Some(p) ==> lookup(p, m.form.name) == Some(
            m.form.path,
        ),
        model_wf(step(m, UiEvent::AddFont(Ok(d)))),
{
    lemma_insert_row(m.fonts, m.form.name, d);
    if let Some(p) = m.paths {
        lemma_insert_row(p, m.form.name, m.form.path);
    }
}

/// A failed read leaves every table as it was, stores the failure's description as the
/// error message, keeps the form open, and ends the frame with no event and nothing to apply.
pub proof fn add_font_failure<D>(
    m: EditorModel<D>,
    e: String,
    rest: Seq<UiEvent<D>>,
    save: bool,
    apply: bool,
)
    requires
        m.form.adding,
        e@.len() > 0,
    ensures
        ({
            let m2 = step(m, UiEvent::AddFont(Err(e)));
            &&& m2.fonts == m.fonts
            &&& m2.families == m.families
            &&& m2.paths == m.paths
            &&& m2.form.err == e@
            &&& m2.form.err.len() > 0
            &&& m2.form.adding
        }),
        run(m, seq![UiEvent::AddFont(Err(e))] + rest, save, apply) == (
            step(m, UiEvent::AddFont(Err(e))),
            false,
            false,
        ),
{
    let evs = seq![UiEvent::AddFont(Err(e))] + rest;
    assert(evs[0] == UiEvent::<D>::AddFont(Err(e)));
}

/// Removing a font removes its identifier from the font data table and from the registry, and
/// leaves every family list as it was, dangling references included.
pub proof fn remove_font_clears_path<D>(m: EditorModel<D>, i: usize)
    requires
        model_wf(m),
        i < m.fonts.len(),
    ensures
        ({
            let k = m.fonts[i as int].0;
            let m2 = step(m, UiEvent::RemoveFont(i));
            &&& !has_key(m2.fonts, k)
            &&& m2.paths matches Some(p) ==> !has_key(p, k)
            &&& m2.families == m.families
            &&& model_wf(m2)
        }),
{
    let k = m.fonts[i as int].0;
    lemma_index_of(m.fonts, i as int);
    lemma_remove_key(m.fonts, k);
    if let Some(p) = m.paths {
        lemma_remove_key(p, k);
    }
}

/// Appending to a family adds exactly one empty slot at the end of its list, and changes no
/// other slot and no other family.
pub proof fn append_slot_adds_one(f: FamilyRows, i: int)
    requires
        0 <= i < f.len(),
    ensures
        append_slot_rows(f, i).len() == f.len(),
        append_slot_rows(f, i)[i].0 == f[i].0,
        append_slot_rows(f, i)[i].1.len() == f[i].1.len() + 1,
        append_slot_rows(f, i)[i].1.last() == Seq::<char>::empty(),
        append_slot_rows(f, i)[i].1.drop_last() == f[i].1,
        forall|j: int| 0 <= j < f.len() && j != i ==> #[trigger] append_slot_rows(f, i)[j] == f[j],
{
    assert(append_slot_rows(f, i)[i].1.drop_last() =~= f[i].1);
}

/// Removing slot `j` of a list of length `n` leaves `n - 1` slots, the others in their order.
pub proof fn remove_slot_keeps_order(f: FamilyRows, i: int, j: int)
    requires
        0 <= i < f.len(),
        0 <= j < f[i].1.len(),
    ensures
        remove_slot_rows(f, i, j)[i].1.len() == f[i].1.len() - 1,
        forall|a: int| 0 <= a < j ==> #[trigger] remove_slot_rows(f, i, j)[i].1[a] == f[i].1[a],
        forall|a: int|
            j <= a < f[i].1.len() - 1 ==> #[trigger] remove_slot_rows(f, i, j)[i].1[a] == f[i].1[a
                + 1],
        forall|b: int| 0 <= b < f.len() && b != i ==> #[trigger] remove_slot_rows(f, i, j)[b] == f[b],
{
}

/// Deleting a family removes it from the family table; creating a family of that name
/// afterwards starts it with an empty list.
pub proof fn remove_family_then_recreate<D>(m: EditorModel<D>, i: usize)
    requires
        model_wf(m),
        i < m.families.len(),
    ensures
        ({
            let name = m.families[i as int].0;
            let m2 = step(m, UiEvent::RemoveFamily(i));
            &&& !has_key(m2.families, name)
            &&& model_wf(m2)
            &&& lookup(insert_row(m2.families, name, Seq::<Seq<char>>::empty()), name) == Some(
                Seq::<Seq<char>>::empty(),
            )
        }),
{
    let name = m.families[i as int].0;
    lemma_index_of(m.families, i as int);
    lemma_remove_key(m.families, name);
    let f2 = remove_key(m.families, name);
    lemma_insert_row(f2, name, Seq::<Seq<char>>::empty());
}

/// "Apply" changes nothing, and a frame that applies twice pushes the same configuration
/// as a frame that applies once.
pub proof fn apply_idempotent<D>(m: EditorModel<D>)
    ensures
        step(m, UiEvent::Apply) == m,
        run(m, seq![UiEvent::Apply], false, false) == (m, false, true),
        run(m, seq![UiEvent::Apply, UiEvent::Apply], false, false) == run(
            m,
            seq![UiEvent::Apply],
            false,
            false,
        ),
{
    let one = seq![UiEvent::<D>::Apply];
    let two = seq![UiEvent::<D>::Apply, UiEvent::Apply];
    assert(one.drop_first() =~= Seq::<UiEvent<D>>::empty());
    assert(two.drop_first() =~= one);
    assert(run(m, one.drop_first(), false, true) == (m, false, true));
    assert(run(m, two.drop_first(), false, true) == (m, false, true)) by {
        assert(run(m, one.drop_first(), false, true) == (m, false, true));
    }
}

/// "Save" changes nothing and requests a save, so repeating it with no edits requests a save
/// every time and leaves every table as it was.
pub proof fn save_changes_nothing<D>(m: EditorModel<D>)
    ensures
        step(m, UiEvent::Save) == m,
        run(m, seq![UiEvent::Save], false, false) == (m, true, false),
        run(run(m, seq![UiEvent::Save], false, false).0, seq![UiEvent::Save], false, false)
            == run(m, seq![UiEvent::Save], false, false),
{
    let one = seq![UiEvent::<D>::Save];
    assert(one[0] is Save);
    assert(one.drop_first() =~= Seq::<UiEvent<D>>::empty());
    assert(run(m, one.drop_first(), true, false) == (m, true, false));
}

} // verus!
