use vstd::prelude::*;

verus! {

/// The kind of an item of gear.
#[derive(Debug, Clone, Copy, PartialEq, Eq, Structural, Default)]
pub enum GearType {
    Helmet,
    Chestplate,
    Leggings,
    Boots,
    Ring,
    Bracelet,
    Necklace,
    Bow,
    Spear,
    Wand,
    Dagger,
    Relik,
    /// An item of no known kind.
    #[default]
    Untyped,
}

/// An item of the gear catalog.
#[derive(Debug, Clone, Default)]
pub struct Gear {
    pub id: i64,
    pub name: String,
    pub tier: String,
    pub gear_type: GearType,
}

/// The gear catalog.
#[derive(Debug, Clone, Default)]
pub struct GearList {
    pub items: Vec<Gear>,
}

/// The names of the items of `items` whose kind is `gear_type`, in catalog order.
pub open spec fn names_of_type(items: Seq<Gear>, gear_type: GearType) -> Seq<Seq<char>>
    decreases items.len(),
{
    if items.len() == 0 {
        Seq::empty()
    } else {
        let before = names_of_type(items.drop_last(), gear_type);
        if items.last().gear_type == gear_type {
            before.push(items.last().name@)
        } else {
            before
        }
    }
}

/// The names of the weapons of `items`: spears, then wands, bows, daggers and reliks.
pub open spec fn weapon_names(items: Seq<Gear>) -> Seq<Seq<char>> {
    names_of_type(items, GearType::Spear) + names_of_type(items, GearType::Wand) + names_of_type(
        items,
        GearType::Bow,
    ) + names_of_type(items, GearType::Dagger) + names_of_type(items, GearType::Relik)
}

/// The views of a sequence of strings.
pub open spec fn texts(s: Seq<String>) -> Seq<Seq<char>> {
    s.map_values(|t: String| t@)
}

impl GearList {
    /// The names of the catalog's items of kind `gear_type`, in catalog order.
    pub fn get_gear_by_type(&self, gear_type: GearType) -> (r: Vec<String>)
        ensures
            texts(r@) == names_of_type(self.items@, gear_type),
    {
        let mut names: Vec<String> = Vec::new();
        let mut i: usize = 0;
        while i < self.items.len()
            invariant
                i <= self.items@.len(),
                texts(names@) == names_of_type(self.items@.subrange(0, i as int), gear_type),
            decreases self.items@.len() - i,
        {
            let gear = &self.items[i];
            assert(self.items@.subrange(0, i + 1).drop_last() =~= self.items@.subrange(0, i as int));
            if gear.gear_type == gear_type {
                names.push(gear.name.clone());
                assert(texts(names@) =~= names_of_type(self.items@.subrange(0, i + 1), gear_type));
            }
            i = i + 1;
        }
        assert(self.items@.subrange(0, i as int) =~= self.items@);
        names
    }

    pub fn helmets(&self) -> (r: Vec<String>)
        ensures
            texts(r@) == names_of_type(self.items@, GearType::Helmet),
    {
        self.get_gear_by_type(GearType::Helmet)
    }

    pub fn chestplates(&self) -> (r: Vec<String>)
        ensures
            texts(r@) == names_of_type(self.items@, GearType::Chestplate),
    {
        self.get_gear_by_type(GearType::Chestplate)
    }

    pub fn leggings(&self) -> (r: Vec<String>)
        ensures
            texts(r@) == names_of_type(self.items@, GearType::Leggings),
    {
        self.get_gear_by_type(GearType::Leggings)
    }

    pub fn boots(&self) -> (r: Vec<String>)
        ensures
            texts(r@) == names_of_type(self.items@, GearType::Boots),
    {
        self.get_gear_by_type(GearType::Boots)
    }

    pub fn rings(&self) -> (r: Vec<String>)
        ensures
            texts(r@) == names_of_type(self.items@, GearType::Ring),
    {
        self.get_gear_by_type(GearType::Ring)
    }

    pub fn bracelets(&self) -> (r: Vec<String>)
        ensures
            texts(r@) == names_of_type(self.items@, GearType::Bracelet),
    {
        self.get_gear_by_type(GearType::Bracelet)
    }

    pub fn necklaces(&self) -> (r: Vec<String>)
        ensures
            texts(r@) == names_of_type(self.items@, GearType::Necklace),
    {
        self.get_gear_by_type(GearType::Necklace)
    }

    /// The names of all the catalog's weapons, kind by kind.
    pub fn weapons(&self) -> (r: Vec<String>)
        ensures
            texts(r@) == weapon_names(self.items@),
    {
        let mut names = self.get_gear_by_type(GearType::Spear);
        let mut wands = self.get_gear_by_type(GearType::Wand);
        let mut bows = self.get_gear_by_type(GearType::Bow);
        let mut daggers = self.get_gear_by_type(GearType::Dagger);
        let mut reliks = self.get_gear_by_type(GearType::Relik);
        let ghost parts = (names@, wands@, bows@, daggers@, reliks@);
        names.append(&mut wands);
        names.append(&mut bows);
        names.append(&mut daggers);
        names.append(&mut reliks);
        proof {
            let all = parts.0 + parts.1 + parts.2 + parts.3 + parts.4;
            assert(names@ =~= all);
            assert(texts(all) =~= texts(parts.0) + texts(parts.1) + texts(parts.2) + texts(parts.3)
                + texts(parts.4));
        }
        names
    }
}

impl Gear {
    /// A placeholder item of kind `gear_type`, of the common tier.
    pub fn default_for_type(gear_type: GearType, name: &str, id: i64) -> (r: Gear)
        ensures
            r.id == id,
            r.name@ == name@,
            r.tier@ == "Common"@,
            r.gear_type == gear_type,
    {
        Gear { id, name: name.to_owned(), tier: "Common".to_owned(), gear_type }
    }
}

/// One selection per name, each holding that name.
pub fn gear_to_some(gear_list: Vec<String>) -> (r: Vec<Option<String>>)
    ensures
        r@ == gear_list@.map_values(|name: String| Some(name)),
{
    let mut selections: Vec<Option<String>> = Vec::new();
    let mut i: usize = 0;
    while i < gear_list.len()
        invariant
            i <= gear_list@.len(),
            selections@ == gear_list@.subrange(0, i as int).map_values(|name: String| Some(name)),
        decreases gear_list@.len() - i,
    {
        selections.push(Some(gear_list[i].clone()));
        assert(selections@ =~= gear_list@.subrange(0, i + 1).map_values(|name: String| Some(name)));
        i = i + 1;
    }
    assert(gear_list@.subrange(0, i as int) =~= gear_list@);
    selections
}

/// `names` without any name equal to `name`, in the same order.
pub open spec fn without(names: Seq<String>, name: Seq<char>) -> Seq<String>
    decreases names.len(),
{
    if names.len() == 0 {
        names
    } else {
        let before = without(names.drop_last(), name);
        if names.last()@ == name {
            before
        } else {
            before.push(names.last())
        }
    }
}

/// Records that `name` was chosen in selection slot `idx` of a kind of gear:
/// the slot, if there is one, shows it, and it joins the names chosen for
/// that kind.
pub fn select_gear(
    selections: &mut Vec<Option<String>>,
    chosen: &mut Vec<String>,
    idx: usize,
    name: String,
)
    ensures
        final(selections)@ == if idx < old(selections)@.len() {
            old(selections)@.update(idx as int, Some(name))
        } else {
            old(selections)@
        },
        final(chosen)@ == old(chosen)@.push(name),
{
    if idx < selections.len() {
        selections[idx] = Some(name.clone());
    }
    chosen.push(name);
}

/// Removes selection slot `idx` of a kind of gear. The name chosen at that
/// position, if there is one, is dropped from the chosen names, with every
/// other copy of it.
pub fn remove_gear(selections: &mut Vec<Option<String>>, chosen: &mut Vec<String>, idx: usize)
    requires
        idx < old(selections)@.len(),
    ensures
        final(selections)@ == old(selections)@.remove(idx as int),
        final(chosen)@ == if idx < old(chosen)@.len() {
            without(old(chosen)@, old(chosen)@[idx as int]@)
        } else {
            old(chosen)@
        },
{
    selections.remove(idx);
    if idx < chosen.len() {
        let removed = chosen[idx].clone();
        let mut kept: Vec<String> = Vec::new();
        let mut i: usize = 0;
        while i < chosen.len()
            invariant
                i <= chosen@.len(),
                chosen@ == old(chosen)@,
                removed@ == chosen@[idx as int]@,
                kept@ == without(chosen@.subrange(0, i as int), removed@),
            decreases chosen@.len() - i,
        {
            assert(chosen@.subrange(0, i + 1).drop_last() =~= chosen@.subrange(0, i as int));
            if chosen[i] != removed {
                kept.push(chosen[i].clone());
            }
            i = i + 1;
        }
        assert(chosen@.subrange(0, i as int) =~= chosen@);
        *chosen = kept;
    }
}

/// The catalog used when none could be loaded: one placeholder per kind of
/// armour and accessory, and a spear for the weapons, each with a negative id
/// and a name saying that nothing of its kind was found.
pub fn fallback_catalog() -> (r: GearList)
    ensures
        r.items@.len() == 8,
        r.items@[0].gear_type == GearType::Helmet && r.items@[0].id == -1
            && r.items@[0].name@ == "No helmets found"@,
        r.items@[1].gear_type == GearType::Chestplate && r.items@[1].id == -2
            && r.items@[1].name@ == "No chestplates found"@,
        r.items@[2].gear_type == GearType::Leggings && r.items@[2].id == -3
            && r.items@[2].name@ == "No leggings found"@,
        r.items@[3].gear_type == GearType::Boots && r.items@[3].id == -4
            && r.items@[3].name@ == "No boots found"@,
        r.items@[4].gear_type == GearType::Ring && r.items@[4].id == -5
            && r.items@[4].name@ == "No rings found"@,
        r.items@[5].gear_type == GearType::Bracelet && r.items@[5].id == -6
            && r.items@[5].name@ == "No bracelets found"@,
        r.items@[6].gear_type == GearType::Necklace && r.items@[6].id == -7
            && r.items@[6].name@ == "No necklaces found"@,
        r.items@[7].gear_type == GearType::Spear && r.items@[7].id == -8
            && r.items@[7].name@ == "No weapons found"@,
        forall|i: int| 0 <= i < 8 ==> (#[trigger] r.items@[i]).tier@ == "Common"@,
{
    GearList {
        items: vec![
            Gear::default_for_type(GearType::Helmet, "No helmets found", -1),
            Gear::default_for_type(GearType::Chestplate, "No chestplates found", -2),
            Gear::default_for_type(GearType::Leggings, "No leggings found", -3),
            Gear::default_for_type(GearType::Boots, "No boots found", -4),
            Gear::default_for_type(GearType::Ring, "No rings found", -5),
            Gear::default_for_type(GearType::Bracelet, "No bracelets found", -6),
            Gear::default_for_type(GearType::Necklace, "No necklaces found", -7),
            Gear::default_for_type(GearType::Spear, "No weapons found", -8),
        ],
    }
}

} // verus!
