use physics_eater::namedb::{Label, NameDb, NameDbs, NameSources};

fn lines(text: &[&str]) -> Vec<String> {
    text.iter().map(|line| line.to_string()).collect()
}

fn name(text: &str) -> Label {
    Label::Name(text.to_string())
}

#[test]
fn index_without_a_table_stands_for_itself() {
    let db = NameDb::default();
    assert_eq!(db.identify(0), Label::Index(0));
    assert_eq!(db.identify(41), Label::Index(41));
}

#[test]
fn line_names_its_index() {
    let db = NameDb::new(&lines(&["alpha", "", "gamma"]));
    assert_eq!(db.identify(0), name("alpha"));
    assert_eq!(db.identify(1), Label::Index(1));
    assert_eq!(db.identify(2), name("gamma"));
    assert_eq!(db.identify(3), Label::Index(3));
}

#[test]
fn lines_are_trimmed() {
    let db = NameDb::new(&lines(&["  alpha  ", " \t ", "\tbeta gamma\r"]));
    assert_eq!(db.identify(0), name("alpha"));
    assert_eq!(db.identify(1), Label::Index(1));
    assert_eq!(db.identify(2), name("beta gamma"));
}

#[test]
fn optional_index_keeps_its_absence() {
    let db = NameDb::new(&lines(&["zero", "one"]));
    assert_eq!(db.identify_optional(None), None);
    assert_eq!(db.identify_optional(Some(1)), Some(name("one")));
    assert_eq!(db.identify_optional(Some(2)), Some(Label::Index(2)));
    assert_eq!(db.identify_optional_32(None), None);
    assert_eq!(db.identify_optional_32(Some(0)), Some(name("zero")));
    assert_eq!(db.identify_optional_32(Some(70000)), Some(Label::Index(70000)));
}

#[test]
fn indices_are_named_in_their_order() {
    let db = NameDb::new(&lines(&["zero", "", "two"]));
    assert_eq!(
        db.identify_all(&vec![2, 0, 1, 9]),
        vec![name("two"), name("zero"), Label::Index(1), Label::Index(9)]
    );
    assert_eq!(db.identify_all(&vec![]), Vec::<Label>::new());
}

#[test]
fn clone_keeps_the_names() {
    let db = NameDb::new(&lines(&["zero", "", "two"]));
    let copy = db.clone();
    assert_eq!(copy.identify(0), name("zero"));
    assert_eq!(copy.identify(1), Label::Index(1));
    assert_eq!(copy.identify(2), name("two"));
    assert_eq!(copy.identify(3), Label::Index(3));
}

#[test]
fn default_names_are_the_weapon_classes_alone() {
    let dbs = NameDbs::default();
    assert_eq!(dbs.weapon_class_names.identify(0), name("melee"));
    assert_eq!(dbs.weapon_class_names.identify(1), name("normal"));
    assert_eq!(dbs.weapon_class_names.identify(2), name("dual function"));
    assert_eq!(dbs.weapon_class_names.identify(3), name("dual wield"));
    assert_eq!(dbs.weapon_class_names.identify(4), name("multipurpose"));
    assert_eq!(dbs.weapon_class_names.identify(5), Label::Index(5));
    assert_eq!(dbs.monster_names.identify(0), Label::Index(0));
    assert_eq!(dbs.monster_class_names.identify(0), Label::Index(0));
    assert_eq!(dbs.projectile_names.identify(0), Label::Index(0));
    assert_eq!(dbs.weapon_names.identify(0), Label::Index(0));
    assert_eq!(dbs.item_names.identify(0), Label::Index(0));
    assert_eq!(dbs.effect_names.identify(0), Label::Index(0));
    assert_eq!(dbs.damage_type_names.identify(0), Label::Index(0));
    assert_eq!(dbs.collection_names.identify(0), Label::Index(0));
    assert_eq!(dbs.sound_names.identify(0), Label::Index(0));
}

#[test]
fn names_without_sources_are_the_default() {
    let dbs = NameDbs::new(None);
    assert_eq!(dbs.weapon_class_names.identify(3), name("dual wield"));
    assert_eq!(dbs.sound_names.identify(3), Label::Index(3));
}

#[test]
fn names_come_from_their_own_list() {
    let sources = NameSources {
        monster_class_names: lines(&["class"]),
        monster_names: lines(&["monster"]),
        projectile_names: lines(&["projectile"]),
        weapon_names: lines(&["weapon"]),
        item_names: lines(&["item"]),
        effect_names: lines(&["effect"]),
        damage_type_names: lines(&["damage"]),
        collection_names: lines(&["collection"]),
        sound_names: lines(&["sound"]),
    };
    let dbs = NameDbs::new(Some(&sources));
    assert_eq!(dbs.monster_class_names.identify(0), name("class"));
    assert_eq!(dbs.monster_names.identify(0), name("monster"));
    assert_eq!(dbs.projectile_names.identify(0), name("projectile"));
    assert_eq!(dbs.weapon_names.identify(0), name("weapon"));
    assert_eq!(dbs.item_names.identify(0), name("item"));
    assert_eq!(dbs.effect_names.identify(0), name("effect"));
    assert_eq!(dbs.damage_type_names.identify(0), name("damage"));
    assert_eq!(dbs.collection_names.identify(0), name("collection"));
    assert_eq!(dbs.sound_names.identify(0), name("sound"));
    assert_eq!(dbs.weapon_class_names.identify(0), name("melee"));
    assert_eq!(dbs.monster_names.identify(1), Label::Index(1));
}

#[test]
fn empty_sources_leave_every_index_unnamed() {
    let dbs = NameDbs::new(Some(&NameSources::default()));
    assert_eq!(dbs.monster_names.identify(0), Label::Index(0));
    assert_eq!(dbs.weapon_class_names.identify(4), name("multipurpose"));
}
