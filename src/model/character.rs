use vstd::prelude::*;

verus! {

/// The location where every new character starts.
pub const START_LOCATION: u64 = 1;

/// The hit points of a new character.
pub const START_HP: i32 = 100;

/// A game character.
pub struct Character {
    pub location_id: u64,
    pub name: String,
    pub hp: i32,
}

/// A request to create a character with the given name.
pub struct CharacterRequest {
    pub name: String,
}

/// A stored character row.
pub struct CharacterSql {
    pub id: u64,
    pub name: String,
    pub location_id: String,
    pub hp: i32,
}

impl Character {
    /// A fresh character at the start location with full hit points.
    pub fn new(name: String) -> (r: Self)
        ensures
            r.location_id == START_LOCATION,
            r.name@ == name@,
            r.hp == START_HP,
    {
        Self { location_id: START_LOCATION, name, hp: START_HP }
    }
}

/// What can go wrong when creating a character.
#[derive(Debug, Clone, Copy, PartialEq, Eq, Structural)]
pub enum CharacterError {
    /// A character with that name already exists.
    NameTaken,
}

pub open spec fn character_named(s: Seq<Character>, name: Seq<char>) -> bool {
    exists|i: int| 0 <= i < s.len() && s[i].name@ == name
}

/// The characters created so far; names are unique.
pub struct CharacterRoster {
    characters: Vec<Character>,
}

impl View for CharacterRoster {
    type V = Seq<Character>;

    closed spec fn view(&self) -> Seq<Character> {
        self.characters@
    }
}

impl CharacterRoster {
    pub open spec fn wf(&self) -> bool {
        forall|i: int, j: int|
            0 <= i < self@.len() && 0 <= j < self@.len() && i != j ==> self@[i].name@
                != self@[j].name@
    }

    /// An empty roster.
    pub fn new() -> (r: CharacterRoster)
        ensures
            r.wf(),
            r@ == Seq::<Character>::empty(),
    {
        CharacterRoster { characters: Vec::new() }
    }

    /// Whether a character has this name.
    pub fn contains(&self, name: &String) -> (r: bool)
        ensures
            r == character_named(self@, name@),
    {
        let mut i: usize = 0;
        while i < self.characters.len()
            invariant
                i <= self.characters@.len(),
                forall|j: int| 0 <= j < i ==> self.characters@[j].name@ != name@,
            decreases self.characters@.len() - i,
        {
            if self.characters[i].name == *name {
                return true;
            }
            i += 1;
        }
        false
    }

    /// All characters, in the order of creation.
    pub fn characters(&self) -> (r: &Vec<Character>)
        ensures
            r@ == self@,
    {
        &self.characters
    }
}

/// Creates a fresh character with the requested name, unless the name is taken.
pub fn character_create(roster: &mut CharacterRoster, req: &CharacterRequest) -> (r: Result<
    (),
    CharacterError,
>)
    requires
        old(roster).wf(),
    ensures
        final(roster).wf(),
        r is Err <==> character_named(old(roster)@, req.name@),
        r is Err ==> final(roster)@ == old(roster)@,
        r is Ok ==> {
            &&& final(roster)@.len() == old(roster)@.len() + 1
            &&& final(roster)@.drop_last() == old(roster)@
            &&& final(roster)@.last().name@ == req.name@
            &&& final(roster)@.last().location_id == START_LOCATION
            &&& final(roster)@.last().hp == START_HP
        },
{
    if roster.contains(&req.name) {
        return Err(CharacterError::NameTaken);
    }
    let ghost before = roster.characters@;
    roster.characters.push(Character::new(req.name.clone()));
    proof {
        let n = before.len() as int;
        assert(roster.characters@.drop_last() =~= before);
        assert forall|i: int, j: int|
            0 <= i < roster@.len() && 0 <= j < roster@.len() && i != j implies roster@[i].name@
            != roster@[j].name@ by {
            if i == n {
                assert(roster@[j] == before[j]);
            } else if j == n {
                assert(roster@[i] == before[i]);
            } else {
                assert(roster@[i] == before[i]);
                assert(roster@[j] == before[j]);
            }
        }
    }
    Ok(())
}

} // verus!
