use vstd::prelude::*;

verus! {

/// The six per-stat values of a record or of one of its forms.
#[derive(Clone, Copy, Debug, PartialEq, Eq, Structural)]
pub struct Iv {
    pub hp: u16,
    pub atk: u16,
    pub def: u16,
    pub sp_atk: u16,
    pub sp_def: u16,
    pub spd: u16,
}

impl Iv {
    pub open spec fn zero_spec() -> Iv {
        Iv { hp: 0, atk: 0, def: 0, sp_atk: 0, sp_def: 0, spd: 0 }
    }

    pub fn zero() -> (r: Iv)
        ensures
            r == Iv::zero_spec(),
    {
        Iv { hp: 0, atk: 0, def: 0, sp_atk: 0, sp_def: 0, spd: 0 }
    }
}

/// An alternate profile of a record, shown under the record's name followed
/// by its name tokens.
#[derive(Clone, Debug, PartialEq)]
pub struct Form {
    pub form: Vec<String>,
    pub iv: Iv,
    pub pm_type: Vec<String>,
    pub ability: Vec<u16>,
}

/// One entry of the catalog.
#[derive(Clone, Debug, PartialEq)]
pub struct Pokemon {
    pub no: u16,
    pub name: String,
    pub iv: Iv,
    pub pm_type: Vec<String>,
    pub ability: Vec<u16>,
    pub form: Option<Vec<Form>>,
}

/// The mathematical value of a form.
pub struct FormView {
    pub form: Seq<Seq<char>>,
    pub iv: Iv,
    pub pm_type: Seq<Seq<char>>,
    pub ability: Seq<u16>,
}

/// The mathematical value of a record.
pub struct PokemonView {
    pub no: u16,
    pub name: Seq<char>,
    pub iv: Iv,
    pub pm_type: Seq<Seq<char>>,
    pub ability: Seq<u16>,
    pub form: Option<Seq<FormView>>,
}

pub open spec fn strs_view(v: Seq<String>) -> Seq<Seq<char>> {
    v.map_values(|s: String| s@)
}

impl View for Form {
    type V = FormView;

    open spec fn view(&self) -> FormView {
        FormView {
            form: strs_view(self.form@),
            iv: self.iv,
            pm_type: strs_view(self.pm_type@),
            ability: self.ability@,
        }
    }
}

pub open spec fn forms_view(v: Seq<Form>) -> Seq<FormView> {
    v.map_values(|f: Form| f@)
}

impl View for Pokemon {
    type V = PokemonView;

    open spec fn view(&self) -> PokemonView {
        PokemonView {
            no: self.no,
            name: self.name@,
            iv: self.iv,
            pm_type: strs_view(self.pm_type@),
            ability: self.ability@,
            form: match self.form {
                None => None,
                Some(fs) => Some(forms_view(fs@)),
            },
        }
    }
}

pub open spec fn records_view(v: Seq<Pokemon>) -> Seq<PokemonView> {
    v.map_values(|p: Pokemon| p@)
}

/// The placeholder that stands in for a missing record.
pub open spec fn placeholder() -> PokemonView {
    PokemonView {
        no: 0,
        name: Seq::empty(),
        iv: Iv::zero_spec(),
        pm_type: Seq::empty(),
        ability: Seq::empty(),
        form: None,
    }
}

pub fn copy_strs(v: &Vec<String>) -> (r: Vec<String>)
    ensures
        strs_view(r@) == strs_view(v@),
{
    let mut r: Vec<String> = Vec::new();
    let mut i: usize = 0;
    while i < v.len()
        invariant
            i <= v.len(),
            r@.len() == i,
            forall|j: int| 0 <= j < i ==> #[trigger] r@[j]@ == v@[j]@,
        decreases v.len() - i,
    {
        r.push(v[i].clone());
        i = i + 1;
    }
    assert(strs_view(r@) =~= strs_view(v@));
    r
}

pub fn copy_ids(v: &Vec<u16>) -> (r: Vec<u16>)
    ensures
        r@ == v@,
{
    let mut r: Vec<u16> = Vec::new();
    let mut i: usize = 0;
    while i < v.len()
        invariant
            i <= v.len(),
            r@ == v@.take(i as int),
        decreases v.len() - i,
    {
        r.push(v[i]);
        i = i + 1;
        assert(r@ =~= v@.take(i as int));
    }
    assert(v@.take(i as int) =~= v@);
    r
}

impl Form {
    /// A copy of this form with the same value.
    pub fn duplicate(&self) -> (r: Form)
        ensures
            r@ == self@,
    {
        Form {
            form: copy_strs(&self.form),
            iv: self.iv,
            pm_type: copy_strs(&self.pm_type),
            ability: copy_ids(&self.ability),
        }
    }
}

fn copy_forms(v: &Vec<Form>) -> (r: Vec<Form>)
    ensures
        forms_view(r@) == forms_view(v@),
{
    let mut r: Vec<Form> = Vec::new();
    let mut i: usize = 0;
    while i < v.len()
        invariant
            i <= v.len(),
            r@.len() == i,
            forall|j: int| 0 <= j < i ==> #[trigger] r@[j]@ == v@[j]@,
        decreases v.len() - i,
    {
        r.push(v[i].duplicate());
        i = i + 1;
    }
    assert(forms_view(r@) =~= forms_view(v@));
    r
}

impl Pokemon {
    /// A copy of this record with the same value.
    pub fn duplicate(&self) -> (r: Pokemon)
        ensures
            r@ == self@,
    {
        let form = match &self.form {
            None => None,
            Some(fs) => Some(copy_forms(fs)),
        };
        Pokemon {
            no: self.no,
            name: self.name.clone(),
            iv: self.iv,
            pm_type: copy_strs(&self.pm_type),
            ability: copy_ids(&self.ability),
            form,
        }
    }
}

/// A copy of a list of records with the same value.
pub fn copy_records(v: &Vec<Pokemon>) -> (r: Vec<Pokemon>)
    ensures
        records_view(r@) == records_view(v@),
{
    let mut r: Vec<Pokemon> = Vec::new();
    let mut i: usize = 0;
    while i < v.len()
        invariant
            i <= v.len(),
            r@.len() == i,
            forall|j: int| 0 <= j < i ==> #[trigger] r@[j]@ == v@[j]@,
        decreases v.len() - i,
    {
        r.push(v[i].duplicate());
        i = i + 1;
    }
    assert(records_view(r@) =~= records_view(v@));
    r
}

impl Default for Pokemon {
    /// The placeholder record: number zero, empty name, no types, abilities
    /// or forms.
    fn default() -> (r: Pokemon)
        ensures
            r@ == placeholder(),
    {
        let r = Pokemon {
            no: 0,
            name: String::new(),
            iv: Iv::zero(),
            pm_type: Vec::new(),
            ability: Vec::new(),
            form: None,
        };
        assert(strs_view(r.pm_type@) =~= Seq::empty());
        assert(r.ability@ =~= Seq::empty());
        r
    }
}

} // verus!
