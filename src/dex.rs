use vstd::prelude::*;
use vstd::string::StringExecFns;

use crate::record::{copy_ids, copy_strs, strs_view, Form, FormView, Iv, Pokemon, PokemonView};

verus! {

/// One detail row: a record, or one of its forms under a composite name.
#[derive(Clone, Debug, PartialEq)]
pub struct PokemonDex {
    pub name: String,
    pub iv: Iv,
    pub pm_type: Vec<String>,
    pub ability: Vec<u16>,
}

/// The detail rows of the selected record, with the page being shown.
#[derive(Clone, Debug, PartialEq)]
pub struct PokemonDexState {
    pub items: Vec<PokemonDex>,
    pub page: usize,
}

pub struct DexView {
    pub name: Seq<char>,
    pub iv: Iv,
    pub pm_type: Seq<Seq<char>>,
    pub ability: Seq<u16>,
}

pub struct DexStateView {
    pub items: Seq<DexView>,
    pub page: usize,
}

impl View for PokemonDex {
    type V = DexView;

    open spec fn view(&self) -> DexView {
        DexView {
            name: self.name@,
            iv: self.iv,
            pm_type: strs_view(self.pm_type@),
            ability: self.ability@,
        }
    }
}

impl View for PokemonDexState {
    type V = DexStateView;

    open spec fn view(&self) -> DexStateView {
        DexStateView { items: self.items@.map_values(|d: PokemonDex| d@), page: self.page }
    }
}

/// The tokens joined by single spaces.
pub open spec fn joined(toks: Seq<Seq<char>>) -> Seq<char>
    decreases toks.len(),
{
    if toks.len() == 0 {
        Seq::empty()
    } else if toks.len() == 1 {
        toks[0]
    } else {
        joined(toks.drop_last()) + seq![' '] + toks.last()
    }
}

/// The row of the record itself.
pub open spec fn base_row(p: PokemonView) -> DexView {
    DexView { name: p.name, iv: p.iv, pm_type: p.pm_type, ability: p.ability }
}

/// The row of a form of the record named `name`.
pub open spec fn form_row(name: Seq<char>, f: FormView) -> DexView {
    DexView {
        name: name + seq![' '] + joined(f.form),
        iv: f.iv,
        pm_type: f.pm_type,
        ability: f.ability,
    }
}

pub open spec fn form_rows(name: Seq<char>, forms: Option<Seq<FormView>>) -> Seq<DexView> {
    match forms {
        None => Seq::empty(),
        Some(fs) => fs.map_values(|f: FormView| form_row(name, f)),
    }
}

/// The rows of a record: its own, then one per form in declared order.
pub open spec fn flat_rows(p: PokemonView) -> Seq<DexView> {
    seq![base_row(p)] + form_rows(p.name, p.form)
}

/// The detail rows of a record, on the first page.
pub open spec fn flat_state(p: PokemonView) -> DexStateView {
    DexStateView { items: flat_rows(p), page: 1 }
}

fn join_tokens(toks: &Vec<String>) -> (r: String)
    ensures
        r@ == joined(strs_view(toks@)),
{
    let ghost t = strs_view(toks@);
    let mut r = String::new();
    let mut i: usize = 0;
    while i < toks.len()
        invariant
            i <= toks.len(),
            t == strs_view(toks@),
            r@ == joined(t.take(i as int)),
        decreases toks.len() - i,
    {
        proof {
            assert(t.take(i as int + 1).drop_last() =~= t.take(i as int));
            reveal_strlit(" ");
        }
        if i > 0 {
            r.append(" ");
        }
        r.append(toks[i].as_str());
        i = i + 1;
        assert(r@ =~= joined(t.take(i as int)));
    }
    assert(t.take(i as int) =~= t);
    r
}

fn form_dex(name: &String, f: &Form) -> (r: PokemonDex)
    ensures
        r@ == form_row(name@, f@),
{
    let mut full = name.clone();
    proof {
        reveal_strlit(" ");
    }
    full.append(" ");
    let toks = join_tokens(&f.form);
    full.append(toks.as_str());
    assert(" "@ =~= seq![' ']);
    assert(full@ =~= name@ + seq![' '] + joined(f@.form));
    PokemonDex {
        name: full,
        iv: f.iv,
        pm_type: copy_strs(&f.pm_type),
        ability: copy_ids(&f.ability),
    }
}

/// Expands a record into its detail rows: the record's own row first, then
/// one row per form, in declared order, named after the record and the
/// form's tokens and carrying the form's own values. The page starts at 1.
pub fn flat_dex(pm: &Pokemon) -> (r: PokemonDexState)
    ensures
        r@ == flat_state(pm@),
{
    let mut list: Vec<PokemonDex> = Vec::new();
    list.push(
        PokemonDex {
            name: pm.name.clone(),
            iv: pm.iv,
            pm_type: copy_strs(&pm.pm_type),
            ability: copy_ids(&pm.ability),
        },
    );
    let ghost rows = flat_rows(pm@);
    match &pm.form {
        None => {},
        Some(forms) => {
            let mut i: usize = 0;
            while i < forms.len()
                invariant
                    i <= forms.len(),
                    pm.form == Some(*forms),
                    rows == flat_rows(pm@),
                    list@.len() == i + 1,
                    forall|j: int| 0 <= j <= i ==> #[trigger] list@[j]@ == rows[j],
                decreases forms.len() - i,
            {
                let row = form_dex(&pm.name, &forms[i]);
                list.push(row);
                i = i + 1;
            }
        },
    }
    let r = PokemonDexState { items: list, page: 1 };
    assert(r@.items =~= flat_rows(pm@));
    r
}

/// A record with `m` forms gives `m + 1` rows: the record's own first, then
/// for each form, in order, a row named after the record, a space and the
/// form's tokens joined by spaces, carrying the form's own values.
pub proof fn lemma_flat_rows_shape(p: PokemonView)
    ensures
        flat_rows(p).len() == 1 + match p.form {
            None => 0,
            Some(fs) => fs.len(),
        },
        flat_rows(p)[0] == base_row(p),
        flat_rows(p)[0].name == p.name,
        p.form is Some ==> forall|i: int|
            1 <= i <= p.form->0.len() ==> (#[trigger] flat_rows(p)[i]) == (DexView {
                name: p.name + seq![' '] + joined(p.form->0[i - 1].form),
                iv: p.form->0[i - 1].iv,
                pm_type: p.form->0[i - 1].pm_type,
                ability: p.form->0[i - 1].ability,
            }),
{
}

} // verus!
