use vstd::prelude::*;

use crate::table::{insert_row, lemma_map_rows, map_rows, remove_key, Rows, Table};

verus! {

/// Keeps track of custom font paths added by the user: the key is the identifier of the font,
/// the value is the path it was read from.
pub type CustomFontPaths = Table<String>;

/// The contents of a string, as characters.
pub open spec fn string_view(s: String) -> Seq<char> {
    s@
}

/// The contents of a fallback list: one identifier per slot.
pub open spec fn slot_views(v: Vec<String>) -> Seq<Seq<char>> {
    v@.map_values(|s: String| s@)
}

/// The abstract family fallback table: each family name with its ordered fallback slots.
pub type FamilyRows = Rows<Seq<Seq<char>>>;

/// The abstract custom font path registry.
pub type PathRows = Rows<Seq<char>>;

/// The font configuration being edited: the font data table and the family fallback table.
pub struct FontConfig<D> {
    /// Font identifier to font data.
    pub font_data: Table<D>,
    /// Family name to its fallback list of font identifiers, in priority order.
    pub families: Table<Vec<String>>,
}

impl<D> FontConfig<D> {
    /// Both tables have unique keys.
    pub open spec fn wf(&self) -> bool {
        self.font_data.wf() && self.families.wf()
    }

    /// The family fallback table with its lists as sequences of identifiers.
    pub open spec fn family_rows(&self) -> FamilyRows {
        map_rows(self.families@, |v: Vec<String>| slot_views(v))
    }

    /// A configuration with no fonts and no families.
    pub fn new() -> (r: Self)
        ensures
            r.wf(),
            r.font_data@ == Seq::<(Seq<char>, D)>::empty(),
            r.families@ == Seq::<(Seq<char>, Vec<String>)>::empty(),
    {
        FontConfig { font_data: Table::new(), families: Table::new() }
    }

    /// Creates family `name` with an empty fallback list, replacing any list it had.
    pub fn add_family(&mut self, name: String)
        requires
            old(self).wf(),
        ensures
            final(self).wf(),
            final(self).font_data@ == old(self).font_data@,
            final(self).family_rows() == insert_row(
                old(self).family_rows(),
                name@,
                Seq::<Seq<char>>::empty(),
            ),
    {
        let v: Vec<String> = Vec::new();
        proof {
            lemma_map_rows(self.families@, |v: Vec<String>| slot_views(v), name@, v);
            assert(slot_views(v) =~= Seq::<Seq<char>>::empty());
        }
        self.families.insert(name, v);
    }
}

/// The registry as identifiers and paths.
pub open spec fn path_rows(c: Option<CustomFontPaths>) -> Option<PathRows> {
    match c {
        Some(t) => Some(map_rows(t@, |s: String| string_view(s))),
        None => None,
    }
}

/// The registry is absent or has unique keys.
pub open spec fn paths_wf(c: Option<CustomFontPaths>) -> bool {
    c matches Some(t) ==> t.wf()
}

/// The abstract state of the editor's input form.
pub struct FormState {
    /// The identifier input buffer.
    pub name: Seq<char>,
    /// The path input buffer.
    pub path: Seq<char>,
    /// The error message shown under the form; empty when there is none.
    pub err: Seq<char>,
    /// Whether the add-new-font form is open.
    pub adding: bool,
}

/// The state of the font configuration ui: the input buffers of the add-new-font form, the
/// last error message, and whether the form is open.
pub struct FontCfgUi {
    name_buf: String,
    path_buf: String,
    err_msg: String,
    add_new: bool,
}

impl View for FontCfgUi {
    type V = FormState;

    closed spec fn view(&self) -> FormState {
        FormState {
            name: self.name_buf@,
            path: self.path_buf@,
            err: self.err_msg@,
            adding: self.add_new,
        }
    }
}

/// The form with empty buffers, no error message, and closed.
pub open spec fn empty_form() -> FormState {
    FormState {
        name: Seq::empty(),
        path: Seq::empty(),
        err: Seq::empty(),
        adding: false,
    }
}

/// Message returned by a frame of the font configuration editor.
#[derive(PartialEq, Eq, Structural, Debug, Clone, Copy)]
pub enum FontDefsUiMsg {
    /// No event happened
    NoEvent,
    /// A save was requested
    SaveRequest,
}

/// One user interaction with the editor, in the order the editor's controls are laid out.
/// Row and slot positions refer to the tables as they stand when the event is handled.
pub enum UiEvent<D> {
    /// The "+" control of the header: opens the add-new-font form.
    OpenForm,
    /// The identifier input now holds this text.
    SetName(String),
    /// The path input now holds this text.
    SetPath(String),
    /// The "Add new font" control, with the outcome of reading the file at the path input:
    /// the font data, or a description of the failure.
    AddFont(Result<D, String>),
    /// The "-" control of the font row at this position.
    RemoveFont(usize),
    /// The "+" control of the family row at this position.
    AppendSlot(usize),
    /// The "-" control of the family row at this position.
    RemoveFamily(usize),
    /// The slot (family row, slot position) now holds this text.
    EditSlot(usize, usize, String),
    /// The "-" control of the slot (family row, slot position).
    RemoveSlot(usize, usize),
    /// The "Apply" control.
    Apply,
    /// The "Save" control.
    Save,
}

/// The whole state that the editor reads and changes.
pub struct EditorModel<D> {
    /// The input form.
    pub form: FormState,
    /// The font data table.
    pub fonts: Rows<D>,
    /// The family fallback table.
    pub families: FamilyRows,
    /// The custom font path registry, when the host supplied one.
    pub paths: Option<PathRows>,
}

/// The model of a form, a configuration and a registry.
pub open spec fn model_of<D>(
    ui: FontCfgUi,
    cfg: FontConfig<D>,
    custom: Option<CustomFontPaths>,
) -> EditorModel<D> {
    EditorModel {
        form: ui@,
        fonts: cfg.font_data@,
        families: cfg.family_rows(),
        paths: path_rows(custom),
    }
}

/// Whether handling `ev` is a failed attempt to add a font, which ends the frame.
pub open spec fn is_failed_add<D>(m: EditorModel<D>, ev: UiEvent<D>) -> bool {
    m.form.adding && ev matches UiEvent::AddFont(Err(_))
}

/// Appends one empty slot to the list of family row `i`.
pub open spec fn append_slot_rows(f: FamilyRows, i: int) -> FamilyRows {
    f.update(i, (f[i].0, f[i].1.push(Seq::empty())))
}

/// Replaces slot `j` of family row `i` by `s`.
pub open spec fn edit_slot_rows(f: FamilyRows, i: int, j: int, s: Seq<char>) -> FamilyRows {
    f.update(i, (f[i].0, f[i].1.update(j, s)))
}

/// Removes slot `j` of family row `i`; the other slots keep their order.
pub open spec fn remove_slot_rows(f: FamilyRows, i: int, j: int) -> FamilyRows {
    f.update(i, (f[i].0, f[i].1.remove(j)))
}

/// The state after handling one event.
pub open spec fn step<D>(m: EditorModel<D>, ev: UiEvent<D>) -> EditorModel<D> {
    match ev {
        UiEvent::OpenForm => EditorModel {
            form: FormState { err: Seq::empty(), adding: true, ..m.form },
            ..m
        },
        UiEvent::SetName(s) => if m.form.adding {
            EditorModel { form: FormState { name: s@, ..m.form }, ..m }
        } else {
            m
        },
        UiEvent::SetPath(s) => if m.form.adding {
            EditorModel { form: FormState { path: s@, ..m.form }, ..m }
        } else {
            m
        },
        UiEvent::AddFont(Ok(d)) => if m.form.adding {
            EditorModel {
                form: empty_form(),
                fonts: insert_row(m.fonts, m.form.name, d),
                families: m.families,
                paths: match m.paths {
                    Some(p) => Some(insert_row(p, m.form.name, m.form.path)),
                    None => None,
                },
            }
        } else {
            m
        },
        UiEvent::AddFont(Err(e)) => if m.form.adding {
            EditorModel { form: FormState { err: e@, ..m.form }, ..m }
        } else {
            m
        },
        UiEvent::RemoveFont(i) => if i < m.fonts.len() {
            EditorModel {
                fonts: m.fonts.remove(i as int),
                paths: match m.paths {
                    Some(p) => Some(remove_key(p, m.fonts[i as int].0)),
                    None => None,
                },
                ..m
            }
        } else {
            m
        },
        UiEvent::AppendSlot(i) => if i < m.families.len() {
            EditorModel { families: append_slot_rows(m.families, i as int), ..m }
        } else {
            m
        },
        UiEvent::RemoveFamily(i) => if i < m.families.len() {
            EditorModel { families: m.families.remove(i as int), ..m }
        } else {
            m
        },
        UiEvent::EditSlot(i, j, s) => if i < m.families.len() && j < m.families[i as int].1.len() {
            EditorModel { families: edit_slot_rows(m.families, i as int, j as int, s@), ..m }
        } else {
            m
        },
        UiEvent::RemoveSlot(i, j) => if i < m.families.len() && j
            < m.families[i as int].1.len() {
            EditorModel { families: remove_slot_rows(m.families, i as int, j as int), ..m }
        } else {
            m
        },
        UiEvent::Apply => m,
        UiEvent::Save => m,
    }
}

/// What a frame reports: the state after its events, whether a save was requested, and
/// whether the configuration is to be pushed to the live rendering context.
pub open spec fn run<D>(
    m: EditorModel<D>,
    evs: Seq<UiEvent<D>>,
    save: bool,
    apply: bool,
) -> (EditorModel<D>, bool, bool)
    decreases evs.len(),
{
    if evs.len() == 0 {
        (m, save, apply)
    } else if is_failed_add(m, evs[0]) {
        (step(m, evs[0]), false, false)
    } else {
        run(
            step(m, evs[0]),
            evs.drop_first(),
            save || evs[0] is Save,
            apply || evs[0] is Apply,
        )
    }
}

/// What [`FontCfgUi::show`] returns.
pub struct FrameOutput {
    /// Whether the user asked for a save.
    pub msg: FontDefsUiMsg,
    /// Whether the configuration, as it stands after the frame, is to be pushed to the live
    /// rendering context.
    pub apply: bool,
}

impl FontCfgUi {
    /// An editor with empty buffers, no error message and the form closed.
    pub fn new() -> (r: Self)
        ensures
            r@ == empty_form(),
    {
        FontCfgUi {
            name_buf: String::new(),
            path_buf: String::new(),
            err_msg: String::new(),
            add_new: false,
        }
    }

    /// The identifier input buffer.
    pub fn name_buf(&self) -> (r: &String)
        ensures
            r@ == self@.name,
    {
        &self.name_buf
    }

    /// The path input buffer.
    pub fn path_buf(&self) -> (r: &String)
        ensures
            r@ == self@.path,
    {
        &self.path_buf
    }

    /// The error message; empty when there is none.
    pub fn err_msg(&self) -> (r: &String)
        ensures
            r@ == self@.err,
    {
        &self.err_msg
    }

    /// Whether the add-new-font form is open.
    pub fn is_adding(&self) -> (r: bool)
        ensures
            r == self@.adding,
    {
        self.add_new
    }

    /// Handles one event.
    pub fn handle<D>(
        &mut self,
        cfg: &mut FontConfig<D>,
        custom: &mut Option<CustomFontPaths>,
        ev: UiEvent<D>,
    )
        requires
            old(cfg).wf(),
            paths_wf(*old(custom)),
        ensures
            final(cfg).wf(),
            paths_wf(*final(custom)),
            model_of(*final(self), *final(cfg), *final(custom)) == step(
                model_of(*old(self), *old(cfg), *old(custom)),
                ev,
            ),
    {
        let ghost m = model_of(*self, *cfg, *custom);
        match ev {
            UiEvent::OpenForm => {
                self.add_new = true;
                self.err_msg = String::new();
            },
            UiEvent::SetName(s) => {
                if self.add_new {
                    self.name_buf = s;
                }
            },
            UiEvent::SetPath(s) => {
                if self.add_new {
                    self.path_buf = s;
                }
            },
            UiEvent::AddFont(Ok(d)) => {
                if self.add_new {
                    self.add_font(cfg, custom, d);
                }
            },
            UiEvent::AddFont(Err(e)) => {
                if self.add_new {
                    self.err_msg = e;
                }
            },
            UiEvent::RemoveFont(i) => {
                if i < cfg.font_data.len() {
                    remove_font(cfg, custom, i);
                }
            },
            UiEvent::AppendSlot(i) => {
                if i < cfg.families.len() {
                    append_slot(cfg, i);
                }
            },
            UiEvent::RemoveFamily(i) => {
                if i < cfg.families.len() {
                    remove_family(cfg, i);
                }
            },
            UiEvent::EditSlot(i, j, s) => {
                if i < cfg.families.len() && j < cfg.families.value_at(i).len() {
                    edit_slot(cfg, i, j, s);
                }
            },
            UiEvent::RemoveSlot(i, j) => {
                if i < cfg.families.len() && j < cfg.families.value_at(i).len() {
                    remove_slot(cfg, i, j);
                }
            },
            UiEvent::Apply => {},
            UiEvent::Save => {},
        }
    }

    /// Runs one frame: handles `events` in order. A failed attempt to add a font ends the
    /// frame at once, with no event and nothing to apply; otherwise the frame requests a save
    /// when one of its events is "Save", and an apply when one of them is "Apply".
    pub fn show<D>(
        &mut self,
        cfg: &mut FontConfig<D>,
        custom: &mut Option<CustomFontPaths>,
        events: Vec<UiEvent<D>>,
    ) -> (r: FrameOutput)
        requires
            old(cfg).wf(),
            paths_wf(*old(custom)),
        ensures
            final(cfg).wf(),
            paths_wf(*final(custom)),
            model_of(*final(self), *final(cfg), *final(custom)) == run(
                model_of(*old(self), *old(cfg), *old(custom)),
                events@,
                false,
                false,
            ).0,
            r.msg == (if run(model_of(*old(self), *old(cfg), *old(custom)), events@, false, false).1 {
                FontDefsUiMsg::SaveRequest
            } else {
                FontDefsUiMsg::NoEvent
            }),
            r.apply == run(model_of(*old(self), *old(cfg), *old(custom)), events@, false, false).2,
    {
        let ghost total = run(model_of(*self, *cfg, *custom), events@, false, false);
        let mut pending = events;
        let mut save = false;
        let mut apply = false;
        while pending.len() > 0
            invariant
                cfg.wf(),
                paths_wf(*custom),
                total == run(model_of(*old(self), *old(cfg), *old(custom)), events@, false, false),
                total == run(model_of(*self, *cfg, *custom), pending@, save, apply),
            decreases pending.len(),
        {
            let ghost rest = pending@;
            let ghost m = model_of(*self, *cfg, *custom);
            let ev = pending.remove(0);
            assert(pending@ =~= rest.drop_first());
            let failed = match &ev {
                UiEvent::AddFont(Err(_)) => self.add_new,
                _ => false,
            };
            let is_save = match &ev {
                UiEvent::Save => true,
                _ => false,
            };
            let is_apply = match &ev {
                UiEvent::Apply => true,
                _ => false,
            };
            self.handle(cfg, custom, ev);
            if failed {
                return FrameOutput { msg: FontDefsUiMsg::NoEvent, apply: false };
            }
            save = save || is_save;
            apply = apply || is_apply;
        }
        FrameOutput {
            msg: if save {
                FontDefsUiMsg::SaveRequest
            } else {
                FontDefsUiMsg::NoEvent
            },
            apply,
        }
    }

    /// Adds font `d` under the identifier buffer's value, records the path buffer's value in
    /// the registry if there is one, and clears and closes the form.
    fn add_font<D>(&mut self, cfg: &mut FontConfig<D>, custom: &mut Option<CustomFontPaths>, d: D)
        requires
            old(cfg).wf(),
            paths_wf(*old(custom)),
        ensures
            final(cfg).wf(),
            paths_wf(*final(custom)),
            final(self)@ == empty_form(),
            final(cfg).font_data@ == insert_row(old(cfg).font_data@, old(self)@.name, d),
            final(cfg).families@ == old(cfg).families@,
            path_rows(*final(custom)) == match path_rows(*old(custom)) {
                Some(p) => Some(insert_row(p, old(self)@.name, old(self)@.path)),
                None => None,
            },
    {
        cfg.font_data.insert(self.name_buf.clone(), d);
        match custom.as_mut() {
            Some(c) => {
                proof {
                    lemma_map_rows(
                        c@,
                        |s: String| string_view(s),
                        self.name_buf@,
                        self.path_buf,
                    );
                }
                c.insert(self.name_buf.clone(), self.path_buf.clone());
            },
            None => {},
        }
        self.name_buf = String::new();
        self.path_buf = String::new();
        self.err_msg = String::new();
        self.add_new = false;
    }
}

impl Default for FontCfgUi {
    fn default() -> (r: Self)
        ensures
            r@ == empty_form(),
    {
        FontCfgUi::new()
    }
}

/// A convenience window wrapper around [`FontCfgUi`], to show it in a window
pub struct FontCfgWindow {
    ui: FontCfgUi,
    /// Whether the window should be open
    pub open: bool,
}

/// The abstract state of a window: its editor's form and whether it is open.
pub struct WindowState {
    /// The editor's form.
    pub form: FormState,
    /// Whether the window is open.
    pub open: bool,
}

impl View for FontCfgWindow {
    type V = WindowState;

    closed spec fn view(&self) -> WindowState {
        WindowState { form: self.ui@, open: self.open }
    }
}

/// The model of a window's editor, a configuration and a registry.
pub open spec fn window_model<D>(
    w: FontCfgWindow,
    cfg: FontConfig<D>,
    custom: Option<CustomFontPaths>,
) -> EditorModel<D> {
    EditorModel {
        form: w@.form,
        fonts: cfg.font_data@,
        families: cfg.family_rows(),
        paths: path_rows(custom),
    }
}

impl FontCfgWindow {
    /// A closed window around an editor with an empty form.
    pub fn new() -> (r: Self)
        ensures
            r@.form == empty_form(),
            !r@.open,
    {
        FontCfgWindow { ui: FontCfgUi::new(), open: false }
    }

    /// The editor shown in the window.
    pub fn ui(&self) -> (r: &FontCfgUi)
        ensures
            r@ == self@.form,
    {
        &self.ui
    }

    /// Runs one frame of the window. A closed window shows nothing: everything stays as it is
    /// and there is no event. An open window runs the editor's frame on `events`, forwards
    /// what it reports, and closes when `close_clicked` holds.
    pub fn show<D>(
        &mut self,
        cfg: &mut FontConfig<D>,
        custom: &mut Option<CustomFontPaths>,
        events: Vec<UiEvent<D>>,
        close_clicked: bool,
    ) -> (r: FrameOutput)
        requires
            old(cfg).wf(),
            paths_wf(*old(custom)),
        ensures
            final(cfg).wf(),
            paths_wf(*final(custom)),
            !old(self)@.open ==> {
                &&& *final(self) == *old(self)
                &&& *final(cfg) == *old(cfg)
                &&& *final(custom) == *old(custom)
                &&& r.msg == FontDefsUiMsg::NoEvent
                &&& !r.apply
            },
            old(self)@.open ==> {
                let (m, save, apply) = run(
                    window_model(*old(self), *old(cfg), *old(custom)),
                    events@,
                    false,
                    false,
                );
                &&& window_model(*final(self), *final(cfg), *final(custom)) == m
                &&& r.msg == (if save {
                    FontDefsUiMsg::SaveRequest
                } else {
                    FontDefsUiMsg::NoEvent
                })
                &&& r.apply == apply
                &&& final(self)@.open == !close_clicked
            },
    {
        if !self.open {
            return FrameOutput { msg: FontDefsUiMsg::NoEvent, apply: false };
        }
        let r = self.ui.show(cfg, custom, events);
        if close_clicked {
            self.open = false;
        }
        r
    }
}

impl Default for FontCfgWindow {
    fn default() -> (r: Self)
        ensures
            r@.form == empty_form(),
            !r@.open,
    {
        FontCfgWindow::new()
    }
}

/// Removes font row `i`, and its identifier from the registry if there is one. Family lists
/// are left as they are.
fn remove_font<D>(cfg: &mut FontConfig<D>, custom: &mut Option<CustomFontPaths>, i: usize)
    requires
        old(cfg).wf(),
        paths_wf(*old(custom)),
        i < old(cfg).font_data@.len(),
    ensures
        final(cfg).wf(),
        paths_wf(*final(custom)),
        final(cfg).font_data@ == old(cfg).font_data@.remove(i as int),
        final(cfg).families@ == old(cfg).families@,
        path_rows(*final(custom)) == match path_rows(*old(custom)) {
            Some(p) => Some(remove_key(p, old(cfg).font_data@[i as int].0)),
            None => None,
        },
{
    let (name, _data) = cfg.font_data.remove_at(i);
    match custom.as_mut() {
        Some(c) => {
            proof {
                lemma_map_rows(c@, |s: String| string_view(s), name@, name);
            }
            let _ = c.remove(&name);
        },
        None => {},
    }
}

/// The family table after replacing the list of row `i` by `v`.
proof fn lemma_family_update(t: Rows<Vec<String>>, i: int, v: Vec<String>)
    requires
        0 <= i < t.len(),
    ensures
        map_rows(t.update(i, (t[i].0, v)), |v: Vec<String>| slot_views(v)) == map_rows(
            t,
            |v: Vec<String>| slot_views(v),
        ).update(i, (t[i].0, slot_views(v))),
{
    assert(map_rows(t.update(i, (t[i].0, v)), |v: Vec<String>| slot_views(v)) =~= map_rows(
        t,
        |v: Vec<String>| slot_views(v),
    ).update(i, (t[i].0, slot_views(v))));
}

/// Appends one empty slot to the list of family row `i`.
fn append_slot<D>(cfg: &mut FontConfig<D>, i: usize)
    requires
        old(cfg).wf(),
        i < old(cfg).families@.len(),
    ensures
        final(cfg).wf(),
        final(cfg).font_data@ == old(cfg).font_data@,
        final(cfg).family_rows() == append_slot_rows(old(cfg).family_rows(), i as int),
{
    let ghost t = cfg.families@;
    let v = cfg.families.value_mut(i);
    v.push(String::new());
    proof {
        let nv = cfg.families@[i as int].1;
        lemma_family_update(t, i as int, nv);
        assert(slot_views(nv) =~= slot_views(t[i as int].1).push(Seq::empty()));
        assert(cfg.family_rows() =~= append_slot_rows(map_rows(t, |v: Vec<String>| slot_views(v)), i as int));
        assert(forall|a: int| 0 <= a < cfg.families@.len() ==> #[trigger] cfg.families@[a].0 == t[a].0);
    }
}

/// Replaces slot `j` of family row `i` by `s`.
fn edit_slot<D>(cfg: &mut FontConfig<D>, i: usize, j: usize, s: String)
    requires
        old(cfg).wf(),
        i < old(cfg).families@.len(),
        j < old(cfg).families@[i as int].1.len(),
    ensures
        final(cfg).wf(),
        final(cfg).font_data@ == old(cfg).font_data@,
        final(cfg).family_rows() == edit_slot_rows(old(cfg).family_rows(), i as int, j as int, s@),
{
    let ghost t = cfg.families@;
    let ghost sv = s@;
    let v = cfg.families.value_mut(i);
    v[j] = s;
    proof {
        let nv = cfg.families@[i as int].1;
        lemma_family_update(t, i as int, nv);
        assert(slot_views(nv) =~= slot_views(t[i as int].1).update(j as int, sv));
        assert(cfg.family_rows() =~= edit_slot_rows(map_rows(t, |v: Vec<String>| slot_views(v)), i as int, j as int, sv));
        assert(forall|a: int| 0 <= a < cfg.families@.len() ==> #[trigger] cfg.families@[a].0 == t[a].0);
    }
}

/// Removes slot `j` of family row `i`.
fn remove_slot<D>(cfg: &mut FontConfig<D>, i: usize, j: usize)
    requires
        old(cfg).wf(),
        i < old(cfg).families@.len(),
        j < old(cfg).families@[i as int].1.len(),
    ensures
        final(cfg).wf(),
        final(cfg).font_data@ == old(cfg).font_data@,
        final(cfg).family_rows() == remove_slot_rows(old(cfg).family_rows(), i as int, j as int),
{
    let ghost t = cfg.families@;
    let v = cfg.families.value_mut(i);
    let _ = v.remove(j);
    proof {
        let nv = cfg.families@[i as int].1;
        lemma_family_update(t, i as int, nv);
        assert(slot_views(nv) =~= slot_views(t[i as int].1).remove(j as int));
        assert(cfg.family_rows() =~= remove_slot_rows(map_rows(t, |v: Vec<String>| slot_views(v)), i as int, j as int));
        assert(forall|a: int| 0 <= a < cfg.families@.len() ==> #[trigger] cfg.families@[a].0 == t[a].0);
    }
}

/// Removes family row `i` with its whole list.
fn remove_family<D>(cfg: &mut FontConfig<D>, i: usize)
    requires
        old(cfg).wf(),
        i < old(cfg).families@.len(),
    ensures
        final(cfg).wf(),
        final(cfg).font_data@ == old(cfg).font_data@,
        final(cfg).family_rows() == old(cfg).family_rows().remove(i as int),
{
    let ghost t = cfg.families@;
    let _ = cfg.families.remove_at(i);
    assert(cfg.family_rows() =~= map_rows(t, |v: Vec<String>| slot_views(v)).remove(i as int));
}

} // verus!
