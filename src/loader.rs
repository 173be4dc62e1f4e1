use vstd::prelude::*;

use crate::editor::CustomFontPaths;
use crate::table::{insert_row, Rows, Table};

verus! {

/// The font data table after loading, and the outcome: the registry's rows are taken in
/// order, `loaded[i]` being the outcome of reading the file of row `i`. Each font read is
/// inserted under its identifier, overwriting; the first failure stops the load and is
/// reported, and what was inserted before it stays.
pub open spec fn load_rows<D, E, V>(
    fonts: Rows<D>,
    custom: Rows<V>,
    loaded: Seq<Result<D, E>>,
) -> (Rows<D>, Result<(), E>)
    decreases loaded.len(),
{
    if loaded.len() == 0 || custom.len() == 0 {
        (fonts, Ok(()))
    } else {
        match loaded[0] {
            Ok(d) => load_rows(insert_row(fonts, custom[0].0, d), custom.drop_first(), loaded.drop_first()),
            Err(e) => (fonts, Err(e)),
        }
    }
}

/// Loads custom fonts into `font_data`: `loaded` holds the outcomes of reading the files that
/// `custom` names, one per row in the registry's order, up to and including the first failure.
pub fn load_custom_fonts<D, E>(
    custom: &CustomFontPaths,
    font_data: &mut Table<D>,
    loaded: Vec<Result<D, E>>,
) -> (r: Result<(), E>)
    requires
        old(font_data).wf(),
    ensures
        final(font_data).wf(),
        (final(font_data)@, r) == load_rows(old(font_data)@, custom@, loaded@),
{
    let ghost total = load_rows(font_data@, custom@, loaded@);
    let mut pending = loaded;
    let mut i: usize = 0;
    assert(custom@.skip(0) =~= custom@);
    while i < custom.len() && pending.len() > 0
        invariant
            font_data.wf(),
            i <= custom@.len(),
            total == load_rows(old(font_data)@, custom@, loaded@),
            total == load_rows(font_data@, custom@.skip(i as int), pending@),
        decreases pending.len(),
    {
        let ghost rest = pending@;
        let outcome = pending.remove(0);
        assert(pending@ =~= rest.drop_first());
        assert(custom@.skip(i as int).drop_first() =~= custom@.skip(i as int + 1));
        match outcome {
            Ok(d) => {
                font_data.insert(custom.key_at(i).clone(), d);
            },
            Err(e) => {
                return Err(e);
            },
        }
        i = i + 1;
    }
    Ok(())
}

} // verus!
