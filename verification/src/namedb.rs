//! Names for the numbers in a physics file.
//!
//! A [`NameDb`] maps the indices of one category (monsters, sounds, ...) to
//! names. An index without a name stands for itself: [`NameDb::identify`]
//! then gives the index back.

use vstd::prelude::*;

verus! {

/// What an index resolves to: its name, or the index itself where it has no
/// name.
#[derive(Clone, Debug, PartialEq, Eq)]
pub enum Label {
    Name(String),
    Index(usize),
}

/// A [`Label`] as a value: the name's characters, or the index.
pub enum LabelView {
    Name(Seq<char>),
    Index(int),
}

impl View for Label {
    type V = LabelView;

    open spec fn view(&self) -> LabelView {
        match self {
            Label::Name(name) => LabelView::Name(name@),
            Label::Index(index) => LabelView::Index(*index as int),
        }
    }
}

impl DeepView for Label {
    type V = LabelView;

    open spec fn deep_view(&self) -> LabelView {
        self@
    }
}

/// The label of `index` in a table of names: the entry's name where the table
/// has one at `index`, else the index.
pub open spec fn label_of(names: Seq<Option<Seq<char>>>, index: int) -> LabelView {
    if 0 <= index < names.len() && names[index] is Some {
        LabelView::Name(names[index]->0)
    } else {
        LabelView::Index(index)
    }
}

/// The label of an optional index.
pub open spec fn optional_label(names: Seq<Option<Seq<char>>>, index: Option<u16>) -> Option<
    LabelView,
> {
    match index {
        Some(i) => Some(label_of(names, i as int)),
        None => None,
    }
}

/// The label of an optional 32-bit index.
pub open spec fn optional_label_32(names: Seq<Option<Seq<char>>>, index: Option<u32>) -> Option<
    LabelView,
> {
    match index {
        Some(i) => Some(label_of(names, i as int)),
        None => None,
    }
}

/// The labels of a run of indices, in their order.
pub open spec fn labels_of(names: Seq<Option<Seq<char>>>, indices: Seq<u32>) -> Seq<LabelView> {
    Seq::new(indices.len(), |i: int| label_of(names, indices[i] as int))
}

/// A line of text without the whitespace at its start and end, as
/// `str::trim` returns it. Whitespace is what Unicode's `White_Space`
/// property says it is.
pub uninterp spec fn trimmed(line: Seq<char>) -> Seq<char>;

/// The name that a line of a name list gives: the line without the
/// whitespace around it, or no name where nothing else is on the line.
pub open spec fn name_of_line(line: Seq<char>) -> Option<Seq<char>> {
    if trimmed(line).len() == 0 {
        None
    } else {
        Some(trimmed(line))
    }
}

/// The table that the lines of a name list give, one entry per line.
pub open spec fn names_of_lines(lines: Seq<Seq<char>>) -> Seq<Option<Seq<char>>> {
    Seq::new(lines.len(), |i: int| name_of_line(lines[i]))
}

/// The built-in names of the weapon classes.
pub open spec fn weapon_class_names() -> Seq<Option<Seq<char>>> {
    seq![
        Some("melee"@),
        Some("normal"@),
        Some("dual function"@),
        Some("dual wield"@),
        Some("multipurpose"@),
    ]
}

/// Calls `str::trim`. Trusted: the result is the line with leading and
/// trailing whitespace removed, which is all that [`trimmed`] stands for.
#[verifier::external_body]
fn trim(line: &str) -> (r: &str)
    ensures
        r@ == trimmed(line@),
{
    line.trim()
}

/// The names of one category, by index. An entry may have no name.
#[derive(Debug)]
pub struct NameDb {
    names: Vec<Option<String>>,
}

impl View for NameDb {
    type V = Seq<Option<Seq<char>>>;

    closed spec fn view(&self) -> Seq<Option<Seq<char>>> {
        self.names.deep_view()
    }
}

impl NameDb {
    /// No name is empty.
    #[verifier::type_invariant]
    spec fn named(self) -> bool {
        forall|i: int|
            0 <= i < self.names@.len() ==> (#[trigger] self.names@[i] matches Some(name)
                ==> name@.len() > 0)
    }

    /// The table of a name list: line `i` names index `i`, and a blank line
    /// leaves its index without a name.
    pub fn new(lines: &[String]) -> (db: NameDb)
        ensures
            db@ == names_of_lines(lines.deep_view()),
    {
        let mut names: Vec<Option<String>> = Vec::new();
        let mut i: usize = 0;
        while i < lines.len()
            invariant
                i <= lines@.len(),
                names@.len() == i,
                forall|k: int|
                    0 <= k < i ==> (#[trigger] names@[k]).deep_view() == name_of_line(lines@[k]@),
                forall|k: int|
                    0 <= k < i ==> (#[trigger] names@[k] matches Some(name) ==> name@.len() > 0),
            decreases lines@.len() - i,
        {
            let line = trim(lines[i].as_str());
            if line.is_empty() {
                names.push(None);
            } else {
                names.push(Some(line.to_owned()));
            }
            i = i + 1;
        }
        assert(names.deep_view() =~= names_of_lines(lines.deep_view()));
        NameDb { names }
    }

    /// The name of `index`, or `index` itself where it has none.
    pub fn identify(&self, index: usize) -> (label: Label)
        ensures
            label@ == label_of(self@, index as int),
            label matches Label::Name(name) ==> name@.len() > 0,
    {
        proof {
            use_type_invariant(self);
        }
        if index < self.names.len() {
            match &self.names[index] {
                Some(name) => Label::Name(name.clone()),
                None => Label::Index(index),
            }
        } else {
            Label::Index(index)
        }
    }

    /// The name of `index` where there is an index.
    pub fn identify_optional(&self, index: Option<u16>) -> (label: Option<Label>)
        ensures
            label.deep_view() == optional_label(self@, index),
    {
        match index {
            Some(i) => Some(self.identify(i as usize)),
            None => None,
        }
    }

    /// The name of a 32-bit `index` where there is an index.
    pub fn identify_optional_32(&self, index: Option<u32>) -> (label: Option<Label>)
        ensures
            label.deep_view() == optional_label_32(self@, index),
    {
        match index {
            Some(i) => Some(self.identify(i as usize)),
            None => None,
        }
    }

    /// The names of `indices`, in their order.
    pub fn identify_all(&self, indices: &Vec<u32>) -> (labels: Vec<Label>)
        ensures
            labels.deep_view() == labels_of(self@, indices@),
    {
        let mut labels: Vec<Label> = Vec::new();
        let mut i: usize = 0;
        while i < indices.len()
            invariant
                i <= indices@.len(),
                labels@.len() == i,
                forall|k: int|
                    0 <= k < i ==> (#[trigger] labels@[k])@ == label_of(
                        self@,
                        indices@[k] as int,
                    ),
            decreases indices@.len() - i,
        {
            labels.push(self.identify(indices[i] as usize));
            i = i + 1;
        }
        assert(labels.deep_view() =~= labels_of(self@, indices@));
        labels
    }

    /// The built-in table of weapon classes.
    fn weapon_classes() -> (db: NameDb)
        ensures
            db@ == weapon_class_names(),
    {
        proof {
            reveal_strlit("melee");
            reveal_strlit("normal");
            reveal_strlit("dual function");
            reveal_strlit("dual wield");
            reveal_strlit("multipurpose");
        }
        let mut names: Vec<Option<String>> = Vec::new();
        names.push(Some("melee".to_owned()));
        names.push(Some("normal".to_owned()));
        names.push(Some("dual function".to_owned()));
        names.push(Some("dual wield".to_owned()));
        names.push(Some("multipurpose".to_owned()));
        assert(names.deep_view() =~= weapon_class_names());
        NameDb { names }
    }
}

impl Clone for NameDb {
    fn clone(&self) -> (db: NameDb)
        ensures
            db@ == self@,
    {
        proof {
            use_type_invariant(self);
        }
        let mut names: Vec<Option<String>> = Vec::new();
        let mut i: usize = 0;
        while i < self.names.len()
            invariant
                i <= self.names@.len(),
                names@.len() == i,
                forall|k: int| 0 <= k < i ==> #[trigger] names@[k] == self.names@[k],
                self.named(),
            decreases self.names@.len() - i,
        {
            let name = match &self.names[i] {
                Some(name) => Some(name.clone()),
                None => None,
            };
            names.push(name);
            i = i + 1;
        }
        assert(names.deep_view() =~= self.names.deep_view());
        NameDb { names }
    }
}

impl Default for NameDb {
    /// A table without names.
    fn default() -> (db: NameDb)
        ensures
            db@ == Seq::<Option<Seq<char>>>::empty(),
    {
        let names: Vec<Option<String>> = Vec::new();
        assert(names.deep_view() =~= Seq::<Option<Seq<char>>>::empty());
        NameDb { names }
    }
}

/// The lines of the name lists, one list per category. A category without a
/// list has no lines.
#[derive(Clone, Debug, Default)]
pub struct NameSources {
    pub monster_class_names: Vec<String>,
    pub monster_names: Vec<String>,
    pub projectile_names: Vec<String>,
    pub weapon_names: Vec<String>,
    pub item_names: Vec<String>,
    pub effect_names: Vec<String>,
    pub damage_type_names: Vec<String>,
    pub collection_names: Vec<String>,
    pub sound_names: Vec<String>,
}

/// The names of every category.
#[derive(Clone, Debug)]
pub struct NameDbs {
    pub monster_class_names: NameDb,
    pub monster_names: NameDb,
    pub projectile_names: NameDb,
    pub weapon_names: NameDb,
    pub item_names: NameDb,
    pub effect_names: NameDb,
    pub damage_type_names: NameDb,
    pub collection_names: NameDb,
    pub sound_names: NameDb,
    pub weapon_class_names: NameDb,
}

impl NameDbs {
    /// Whether no category but the weapon classes has a name, and those have
    /// the built-in ones.
    pub open spec fn is_default(&self) -> bool {
        &&& self.monster_class_names@ == Seq::<Option<Seq<char>>>::empty()
        &&& self.monster_names@ == Seq::<Option<Seq<char>>>::empty()
        &&& self.projectile_names@ == Seq::<Option<Seq<char>>>::empty()
        &&& self.weapon_names@ == Seq::<Option<Seq<char>>>::empty()
        &&& self.item_names@ == Seq::<Option<Seq<char>>>::empty()
        &&& self.effect_names@ == Seq::<Option<Seq<char>>>::empty()
        &&& self.damage_type_names@ == Seq::<Option<Seq<char>>>::empty()
        &&& self.collection_names@ == Seq::<Option<Seq<char>>>::empty()
        &&& self.sound_names@ == Seq::<Option<Seq<char>>>::empty()
        &&& self.weapon_class_names@ == weapon_class_names()
    }

    /// Whether each category has the names of its list in `sources`, and the
    /// weapon classes have the built-in ones.
    pub open spec fn is_from(&self, sources: NameSources) -> bool {
        &&& self.monster_class_names@ == names_of_lines(sources.monster_class_names.deep_view())
        &&& self.monster_names@ == names_of_lines(sources.monster_names.deep_view())
        &&& self.projectile_names@ == names_of_lines(sources.projectile_names.deep_view())
        &&& self.weapon_names@ == names_of_lines(sources.weapon_names.deep_view())
        &&& self.item_names@ == names_of_lines(sources.item_names.deep_view())
        &&& self.effect_names@ == names_of_lines(sources.effect_names.deep_view())
        &&& self.damage_type_names@ == names_of_lines(sources.damage_type_names.deep_view())
        &&& self.collection_names@ == names_of_lines(sources.collection_names.deep_view())
        &&& self.sound_names@ == names_of_lines(sources.sound_names.deep_view())
        &&& self.weapon_class_names@ == weapon_class_names()
    }

    /// The names that `sources` give, or the default names where there are no
    /// sources. The weapon classes have their built-in names either way.
    pub fn new(sources: Option<&NameSources>) -> (dbs: NameDbs)
        ensures
            match sources {
                Some(lists) => dbs.is_from(*lists),
                None => dbs.is_default(),
            },
    {
        match sources {
            None => NameDbs::default(),
            Some(lists) => NameDbs {
                monster_class_names: NameDb::new(lists.monster_class_names.as_slice()),
                monster_names: NameDb::new(lists.monster_names.as_slice()),
                projectile_names: NameDb::new(lists.projectile_names.as_slice()),
                weapon_names: NameDb::new(lists.weapon_names.as_slice()),
                item_names: NameDb::new(lists.item_names.as_slice()),
                effect_names: NameDb::new(lists.effect_names.as_slice()),
                damage_type_names: NameDb::new(lists.damage_type_names.as_slice()),
                collection_names: NameDb::new(lists.collection_names.as_slice()),
                sound_names: NameDb::new(lists.sound_names.as_slice()),
                weapon_class_names: NameDb::weapon_classes(),
            },
        }
    }
}

impl Default for NameDbs {
    /// No names but the built-in ones of the weapon classes.
    fn default() -> (dbs: NameDbs)
        ensures
            dbs.is_default(),
    {
        NameDbs {
            monster_class_names: NameDb::default(),
            monster_names: NameDb::default(),
            projectile_names: NameDb::default(),
            weapon_names: NameDb::default(),
            item_names: NameDb::default(),
            effect_names: NameDb::default(),
            damage_type_names: NameDb::default(),
            collection_names: NameDb::default(),
            sound_names: NameDb::default(),
            weapon_class_names: NameDb::weapon_classes(),
        }
    }
}

} // verus!
