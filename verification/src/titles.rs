//! Party titles. Each party member holds a title that depends on the chapter, the
//! plot value, story flags and a few objects present in the room; the tracker keeps
//! every title seen during a run.

use vstd::prelude::*;
use crate::num::{GameNum, eqc, gec, gtc, lec, R_0, R_1, R_2, R_3, R_4, R_5, R_6, R_7, R_9, R_10, R_13, R_30, R_60, R_95, R_145, R_154, R_250, R_398, R_440};
use crate::text::{bytes_eq, str_eq};
use vstd::string::StringSliceAdditionalSpecFns;

verus! {

/// The distinct titles of the party. A title's description makes it distinct, its
/// level number does not.
#[derive(Clone, Copy, PartialEq, Eq, Structural, Hash, Debug)]
pub enum Title {
    Human,
    Leader,
    BedInspector,
    Tactician1,
    MossFinder,
    LeaderSideB,
    Tactician2,
    Director,
    MossMystery,
    Blazer,
    IceBlazer,
    Sheath,
    Enjoying,
    DarkHeroBlade,
    MossMost,
    DarkBead,
    BlueRose,
    DarkRose,
    PinkRose,
    ShatteredRose,
    LastMoss,
    Walkerstar,
    LV1,
    MeanGirl,
    DarkKnight,
    HealingMaster,
    MossEnjoyer,
    DarkActorS,
    AxeOfJustice,
    ViolentViolet,
    DarkVineS,
    LonelyPrince,
    PricklyPrince,
    FluffyPrince,
    DarkPrince1,
    HugPrince,
    PosePrince,
    RudePrince,
    BlankPrince,
    DarkPrince2,
    DarkActorR,
    Horse,
    ExHorse,
    DarkPrince3,
    DarkHeroRecords,
    StoolBoy,
    Artemisia,
    DarkVineR,
    Snowcaster,
    Frostmancer,
    IceTrancer,
    MossNeutral,
    Roommate,
}

/// What the title rules read from the game: the global `chapter` and `plot`, the
/// character id in each of the three party slots (`char[0..3]`), the flags the rules
/// consult, the weapons of Ralsei and Noelle (`charweapon[3]`, `charweapon[4]`), the
/// address of the first `obj_room_man` instance (0 when there is none), and the names
/// of the `obj_caterpillar_generic` instances as C-string bytes.
pub struct TitleInputs {
    pub chapter: GameNum,
    pub plot: GameNum,
    pub party: [GameNum; 3],
    pub flag_106: GameNum,
    pub flag_252: GameNum,
    pub flag_325: GameNum,
    pub flag_852: GameNum,
    pub flag_915: GameNum,
    pub flag_916: GameNum,
    pub flag_920: GameNum,
    pub flag_921: GameNum,
    pub flag_922: GameNum,
    pub flag_925: GameNum,
    pub flag_930: GameNum,
    pub flag_1055: GameNum,
    pub flag_1078: GameNum,
    pub flag_1592: GameNum,
    pub flag_1743: GameNum,
    pub flag_1846: GameNum,
    pub flag_1851_raw: u64,
    pub ralsei_weapon: GameNum,
    pub noelle_weapon: GameNum,
    pub room_man_inst: u64,
    pub caterpillar_names: Vec<Vec<u8>>,
}

/// Whether flags 106, 922, 1078 and 1592 are all set to 1 (every moss eaten).
pub open spec fn all_moss(inp: &TitleInputs) -> bool {
    eqc(inp.flag_106, R_1) && eqc(inp.flag_922, R_1) && eqc(inp.flag_1078, R_1) && eqc(
        inp.flag_1592,
        R_1,
    )
}

/// Whether some caterpillar instance is named `flowery`.
pub open spec fn flowery_present(inp: &TitleInputs) -> bool {
    exists|i: int|
        0 <= i < inp.caterpillar_names.len() && #[trigger] inp.caterpillar_names[i]@
            == "flowery".spec_bytes()
}

/// Kris's title.
pub open spec fn kris_title(inp: &TitleInputs) -> Option<Title> {
    let ch = inp.chapter;
    let plot = inp.plot;
    if eqc(ch, R_1) {
        Some(
            if eqc(inp.flag_252, R_1) {
                Title::BedInspector
            } else if gec(plot, R_30) {
                Title::Leader
            } else {
                Title::Human
            },
        )
    } else if eqc(ch, R_2) {
        Some(
            if gtc(inp.flag_915, R_0) && eqc(inp.flag_916, R_0) {
                Title::LeaderSideB
            } else if eqc(inp.flag_920, R_1) {
                Title::MossFinder
            } else if eqc(inp.flag_252, R_1) {
                Title::BedInspector
            } else if gec(plot, R_60) {
                Title::Tactician1
            } else {
                Title::Leader
            },
        )
    } else if eqc(ch, R_3) {
        Some(
            if eqc(inp.flag_930, R_1) {
                Title::Enjoying
            } else if eqc(inp.flag_1055, R_6) {
                Title::Sheath
            } else if eqc(inp.flag_1055, R_3) {
                Title::IceBlazer
            } else if eqc(inp.flag_1055, R_1) {
                Title::Blazer
            } else if gec(plot, R_250) {
                Title::Director
            } else {
                Title::Tactician2
            },
        )
    } else if eqc(ch, R_4) {
        Some(
            if gec(inp.flag_915, R_7) && eqc(inp.flag_916, R_0) {
                Title::DarkBead
            } else if all_moss(inp) {
                Title::MossMost
            } else {
                Title::DarkHeroBlade
            },
        )
    } else if eqc(ch, R_5) {
        Some(
            if inp.room_man_inst != 0 {
                Title::LV1
            } else if inp.flag_1851_raw & 1 == 1 {
                Title::Walkerstar
            } else if gec(plot, R_398) && all_moss(inp) {
                Title::LastMoss
            } else if gec(inp.flag_1846, R_2) {
                Title::PinkRose
            } else if gec(plot, R_440) {
                Title::DarkRose
            } else if eqc(inp.flag_1743, R_1) {
                Title::ShatteredRose
            } else {
                Title::BlueRose
            },
        )
    } else {
        None
    }
}

/// Susie's title.
pub open spec fn susie_title(inp: &TitleInputs) -> Option<Title> {
    let ch = inp.chapter;
    let plot = inp.plot;
    if eqc(ch, R_1) {
        Some(
            if gec(plot, R_154) {
                Title::DarkKnight
            } else {
                Title::MeanGirl
            },
        )
    } else if eqc(ch, R_2) {
        Some(
            if eqc(inp.flag_922, R_1) {
                Title::MossEnjoyer
            } else if gec(plot, R_95) {
                Title::HealingMaster
            } else {
                Title::DarkKnight
            },
        )
    } else if eqc(ch, R_3) {
        Some(
            if gec(plot, R_250) {
                Title::DarkActorS
            } else {
                Title::DarkKnight
            },
        )
    } else if eqc(ch, R_4) {
        Some(
            if gtc(inp.flag_852, R_0) {
                Title::AxeOfJustice
            } else {
                Title::DarkHeroBlade
            },
        )
    } else if eqc(ch, R_5) {
        Some(
            if gec(plot, R_440) {
                Title::DarkVineS
            } else {
                Title::ViolentViolet
            },
        )
    } else {
        None
    }
}

/// Ralsei's title (Flowery briefly takes his slot in chapter 5).
pub open spec fn ralsei_title(inp: &TitleInputs, room: Seq<char>) -> Option<Title> {
    let ch = inp.chapter;
    let plot = inp.plot;
    if eqc(ch, R_1) {
        Some(
            if eqc(inp.ralsei_weapon, R_10) {
                Title::FluffyPrince
            } else if eqc(inp.ralsei_weapon, R_9) {
                Title::PricklyPrince
            } else {
                Title::LonelyPrince
            },
        )
    } else if eqc(ch, R_2) {
        Some(
            if eqc(inp.flag_325, R_1) {
                Title::HugPrince
            } else if eqc(inp.flag_325, R_2) {
                Title::PosePrince
            } else if eqc(inp.flag_325, R_3) {
                Title::RudePrince
            } else if eqc(inp.flag_325, R_4) {
                Title::BlankPrince
            } else {
                Title::DarkPrince1
            },
        )
    } else if eqc(ch, R_3) {
        Some(
            if gec(plot, R_250) {
                Title::DarkActorR
            } else {
                Title::DarkPrince2
            },
        )
    } else if eqc(ch, R_4) {
        Some(
            if gec(plot, R_145) && room == "room_dw_church_bookcase"@ {
                Title::StoolBoy
            } else {
                Title::DarkHeroRecords
            },
        )
    } else if eqc(ch, R_5) {
        Some(
            if flowery_present(inp) {
                Title::Roommate
            } else if gec(plot, R_440) {
                Title::DarkVineR
            } else {
                Title::Artemisia
            },
        )
    } else {
        None
    }
}

/// Noelle's title.
pub open spec fn noelle_title(inp: &TitleInputs) -> Option<Title> {
    if eqc(inp.chapter, R_2) {
        Some(
            if eqc(inp.flag_921, R_1) && (!eqc(inp.flag_916, R_0) || lec(inp.flag_915, R_0)) {
                Title::MossNeutral
            } else if eqc(inp.noelle_weapon, R_13) {
                Title::IceTrancer
            } else if gtc(inp.flag_925, R_0) {
                Title::Frostmancer
            } else {
                Title::Snowcaster
            },
        )
    } else {
        None
    }
}

/// The title of the character with id `who` (1 Kris, 2 Susie, 3 Ralsei, 4 Noelle);
/// `None` for any other id or for a chapter in which that character has no title.
pub open spec fn spec_title_for(who: GameNum, inp: &TitleInputs, room: Seq<char>) -> Option<Title> {
    if eqc(who, R_1) {
        kris_title(inp)
    } else if eqc(who, R_2) {
        susie_title(inp)
    } else if eqc(who, R_3) {
        ralsei_title(inp, room)
    } else if eqc(who, R_4) {
        noelle_title(inp)
    } else {
        None
    }
}

fn all_moss_exec(inp: &TitleInputs) -> (r: bool)
    ensures
        r == all_moss(inp),
{
    inp.flag_106.eq_c(R_1) && inp.flag_922.eq_c(R_1) && inp.flag_1078.eq_c(R_1)
        && inp.flag_1592.eq_c(R_1)
}

fn flowery_present_exec(inp: &TitleInputs) -> (r: bool)
    ensures
        r == flowery_present(inp),
{
    let target = "flowery".as_bytes();
    let mut i: usize = 0;
    while i < inp.caterpillar_names.len()
        invariant
            i <= inp.caterpillar_names.len(),
            target@ == "flowery".spec_bytes(),
            forall|j: int|
                0 <= j < i ==> #[trigger] inp.caterpillar_names[j]@ != "flowery".spec_bytes(),
        decreases inp.caterpillar_names.len() - i,
    {
        if bytes_eq(inp.caterpillar_names[i].as_slice(), target) {
            return true;
        }
        i = i + 1;
    }
    false
}

fn kris_title_exec(inp: &TitleInputs) -> (r: Option<Title>)
    ensures
        r == kris_title(inp),
{
    let ch = inp.chapter;
    let plot = inp.plot;
    if ch.eq_c(R_1) {
        Some(
            if inp.flag_252.eq_c(R_1) {
                Title::BedInspector
            } else if plot.ge_c(R_30) {
                Title::Leader
            } else {
                Title::Human
            },
        )
    } else if ch.eq_c(R_2) {
        Some(
            if inp.flag_915.gt_c(R_0) && inp.flag_916.eq_c(R_0) {
                Title::LeaderSideB
            } else if inp.flag_920.eq_c(R_1) {
                Title::MossFinder
            } else if inp.flag_252.eq_c(R_1) {
                Title::BedInspector
            } else if plot.ge_c(R_60) {
                Title::Tactician1
            } else {
                Title::Leader
            },
        )
    } else if ch.eq_c(R_3) {
        Some(
            if inp.flag_930.eq_c(R_1) {
                Title::Enjoying
            } else if inp.flag_1055.eq_c(R_6) {
                Title::Sheath
            } else if inp.flag_1055.eq_c(R_3) {
                Title::IceBlazer
            } else if inp.flag_1055.eq_c(R_1) {
                Title::Blazer
            } else if plot.ge_c(R_250) {
                Title::Director
            } else {
                Title::Tactician2
            },
        )
    } else if ch.eq_c(R_4) {
        Some(
            if inp.flag_915.ge_c(R_7) && inp.flag_916.eq_c(R_0) {
                Title::DarkBead
            } else if all_moss_exec(inp) {
                Title::MossMost
            } else {
                Title::DarkHeroBlade
            },
        )
    } else if ch.eq_c(R_5) {
        Some(
            if inp.room_man_inst != 0 {
                Title::LV1
            } else if inp.flag_1851_raw & 1 == 1 {
                Title::Walkerstar
            } else if plot.ge_c(R_398) && all_moss_exec(inp) {
                Title::LastMoss
            } else if inp.flag_1846.ge_c(R_2) {
                Title::PinkRose
            } else if plot.ge_c(R_440) {
                Title::DarkRose
            } else if inp.flag_1743.eq_c(R_1) {
                Title::ShatteredRose
            } else {
                Title::BlueRose
            },
        )
    } else {
        None
    }
}

fn susie_title_exec(inp: &TitleInputs) -> (r: Option<Title>)
    ensures
        r == susie_title(inp),
{
    let ch = inp.chapter;
    let plot = inp.plot;
    if ch.eq_c(R_1) {
        Some(
            if plot.ge_c(R_154) {
                Title::DarkKnight
            } else {
                Title::MeanGirl
            },
        )
    } else if ch.eq_c(R_2) {
        Some(
            if inp.flag_922.eq_c(R_1) {
                Title::MossEnjoyer
            } else if plot.ge_c(R_95) {
                Title::HealingMaster
            } else {
                Title::DarkKnight
            },
        )
    } else if ch.eq_c(R_3) {
        Some(
            if plot.ge_c(R_250) {
                Title::DarkActorS
            } else {
                Title::DarkKnight
            },
        )
    } else if ch.eq_c(R_4) {
        Some(
            if inp.flag_852.gt_c(R_0) {
                Title::AxeOfJustice
            } else {
                Title::DarkHeroBlade
            },
        )
    } else if ch.eq_c(R_5) {
        Some(
            if plot.ge_c(R_440) {
                Title::DarkVineS
            } else {
                Title::ViolentViolet
            },
        )
    } else {
        None
    }
}

fn ralsei_title_exec(inp: &TitleInputs, room: &str) -> (r: Option<Title>)
    ensures
        r == ralsei_title(inp, room@),
{
    let ch = inp.chapter;
    let plot = inp.plot;
    if ch.eq_c(R_1) {
        Some(
            if inp.ralsei_weapon.eq_c(R_10) {
                Title::FluffyPrince
            } else if inp.ralsei_weapon.eq_c(R_9) {
                Title::PricklyPrince
            } else {
                Title::LonelyPrince
            },
        )
    } else if ch.eq_c(R_2) {
        Some(
            if inp.flag_325.eq_c(R_1) {
                Title::HugPrince
            } else if inp.flag_325.eq_c(R_2) {
                Title::PosePrince
            } else if inp.flag_325.eq_c(R_3) {
                Title::RudePrince
            } else if inp.flag_325.eq_c(R_4) {
                Title::BlankPrince
            } else {
                Title::DarkPrince1
            },
        )
    } else if ch.eq_c(R_3) {
        Some(
            if plot.ge_c(R_250) {
                Title::DarkActorR
            } else {
                Title::DarkPrince2
            },
        )
    } else if ch.eq_c(R_4) {
        Some(
            if plot.ge_c(R_145) && str_eq(room, "room_dw_church_bookcase") {
                Title::StoolBoy
            } else {
                Title::DarkHeroRecords
            },
        )
    } else if ch.eq_c(R_5) {
        Some(
            if flowery_present_exec(inp) {
                Title::Roommate
            } else if plot.ge_c(R_440) {
                Title::DarkVineR
            } else {
                Title::Artemisia
            },
        )
    } else {
        None
    }
}

fn noelle_title_exec(inp: &TitleInputs) -> (r: Option<Title>)
    ensures
        r == noelle_title(inp),
{
    if inp.chapter.eq_c(R_2) {
        Some(
            if inp.flag_921.eq_c(R_1) && (!inp.flag_916.eq_c(R_0) || inp.flag_915.le_c(R_0)) {
                Title::MossNeutral
            } else if inp.noelle_weapon.eq_c(R_13) {
                Title::IceTrancer
            } else if inp.flag_925.gt_c(R_0) {
                Title::Frostmancer
            } else {
                Title::Snowcaster
            },
        )
    } else {
        None
    }
}

/// The title of the character with id `who`, as `spec_title_for` defines it.
pub fn title_for(who: GameNum, inp: &TitleInputs, room: &str) -> (r: Option<Title>)
    ensures
        r == spec_title_for(who, inp, room@),
{
    if who.eq_c(R_1) {
        kris_title_exec(inp)
    } else if who.eq_c(R_2) {
        susie_title_exec(inp)
    } else if who.eq_c(R_3) {
        ralsei_title_exec(inp, room)
    } else if who.eq_c(R_4) {
        noelle_title_exec(inp)
    } else {
        None
    }
}

/// The titles seen during a run, each once.
pub struct TitleTracker {
    titles: Vec<Title>,
}

impl View for TitleTracker {
    type V = Set<Title>;

    closed spec fn view(&self) -> Set<Title> {
        self.titles@.to_set()
    }
}

impl TitleTracker {
    #[verifier::type_invariant]
    closed spec fn no_duplicates(&self) -> bool {
        self.titles@.no_duplicates()
    }

    /// An empty tracker.
    pub fn new() -> (r: TitleTracker)
        ensures
            r@ == Set::<Title>::empty(),
            r@.finite(),
    {
        let r = TitleTracker { titles: Vec::new() };
        assert(r.titles@.to_set() =~= Set::<Title>::empty());
        r
    }

    /// Whether the tracker holds `t`.
    pub fn contains(&self, t: Title) -> (r: bool)
        ensures
            r == self@.contains(t),
            self@.finite(),
    {
        proof {
            vstd::seq_lib::seq_to_set_is_finite(self.titles@);
        }
        let mut i: usize = 0;
        while i < self.titles.len()
            invariant
                i <= self.titles@.len(),
                forall|j: int| 0 <= j < i ==> self.titles@[j] != t,
            decreases self.titles@.len() - i,
        {
            if self.titles[i] == t {
                assert(self.titles@.to_set().contains(self.titles@[i as int]));
                return true;
            }
            i = i + 1;
        }
        assert(!self.titles@.to_set().contains(t)) by {
            if self.titles@.to_set().contains(t) {
                let k = choose|k: int| 0 <= k < self.titles@.len() && self.titles@[k] == t;
                assert(self.titles@[k] == t);
            }
        }
        false
    }

    /// The number of distinct titles held.
    pub fn len(&self) -> (r: usize)
        ensures
            r == self@.len(),
            self@.finite(),
    {
        proof {
            use_type_invariant(self);
            self.titles@.unique_seq_to_set();
            vstd::seq_lib::seq_to_set_is_finite(self.titles@);
        }
        self.titles.len()
    }

    /// Adds `t`; a title already held is not added twice.
    pub fn insert(&mut self, t: Title)
        ensures
            final(self)@ == old(self)@.insert(t),
            old(self)@.finite() && final(self)@.finite(),
    {
        proof {
            use_type_invariant(&*self);
            vstd::seq_lib::seq_to_set_is_finite(self.titles@);
        }
        if !self.contains(t) {
            let ghost before = self.titles@;
            let mut v: Vec<Title> = Vec::new();
            std::mem::swap(&mut v, &mut self.titles);
            v.push(t);
            proof {
                assert(v@ == before.push(t));
                assert(!before.contains(t));
                assert(before.push(t).no_duplicates());
            }
            self.titles = v;
            proof {
                assert(self.titles@.to_set() =~= before.to_set().insert(t)) by {
                    assert forall|x: Title| self.titles@.to_set().contains(x) implies before.to_set().insert(
                        x,
                    ).contains(x) by {}
                    assert forall|x: Title| #[trigger] before.to_set().insert(t).contains(x) implies self.titles@.to_set().contains(x) by {
                        if x == t {
                            assert(self.titles@[before.len() as int] == t);
                        } else {
                            let k = choose|k: int| 0 <= k < before.len() && before[k] == x;
                            assert(self.titles@[k] == x);
                        }
                    }
                }
            }
        } else {
            proof {
                assert(old(self)@.insert(t) =~= old(self)@);
            }
        }
    }

    /// Forgets every title.
    pub fn clear(&mut self)
        ensures
            final(self)@ == Set::<Title>::empty(),
            final(self)@.finite(),
    {
        self.titles = Vec::new();
        assert(self.titles@.to_set() =~= Set::<Title>::empty());
    }
}

/// The titles that the three party slots hold.
pub open spec fn party_titles(inp: &TitleInputs, room: Seq<char>) -> Set<Title> {
    Set::new(
        |t: Title|
            exists|i: int| 0 <= i < 3 && spec_title_for(inp.party[i], inp, room) == Some(t),
    )
}

/// The titles that an optional title contributes: the title, or nothing.
pub open spec fn opt_titles(o: Option<Title>) -> Set<Title> {
    match o {
        Some(t) => Set::empty().insert(t),
        None => Set::empty(),
    }
}

/// The titles that the three party slots hold are finite and at most three.
pub proof fn lemma_party_titles_at_most_three(inp: &TitleInputs, room: Seq<char>)
    ensures
        party_titles(inp, room).finite(),
        party_titles(inp, room).len() <= 3,
{
    let a = opt_titles(spec_title_for(inp.party[0], inp, room));
    let b = opt_titles(spec_title_for(inp.party[1], inp, room));
    let c = opt_titles(spec_title_for(inp.party[2], inp, room));
    assert(party_titles(inp, room) =~= a.union(b).union(c)) by {
        assert forall|t: Title| #[trigger] party_titles(inp, room).contains(t) implies a.union(b).union(c).contains(t) by {
            let i = choose|i: int| 0 <= i < 3 && spec_title_for(inp.party[i], inp, room) == Some(t);
            assert(i == 0 || i == 1 || i == 2);
        }
        assert forall|t: Title| #[trigger] a.union(b).union(c).contains(t) implies party_titles(inp, room).contains(t) by {
            if a.contains(t) {
                assert(spec_title_for(inp.party[0], inp, room) == Some(t));
            } else if b.contains(t) {
                assert(spec_title_for(inp.party[1], inp, room) == Some(t));
            } else {
                assert(spec_title_for(inp.party[2], inp, room) == Some(t));
            }
        }
    }
    vstd::set_lib::lemma_len_union(a, b);
    vstd::set_lib::lemma_len_union(a.union(b), c);
}

/// Records the titles of the three party slots in `tracker`; a slot whose character has
/// no title in the current chapter adds nothing. At most three titles are added.
pub fn titles_check(tracker: &mut TitleTracker, inp: &TitleInputs, room: &str)
    ensures
        final(tracker)@ == old(tracker)@.union(party_titles(inp, room@)),
        final(tracker)@.finite(),
        final(tracker)@.len() <= old(tracker)@.len() + 3,
{
    proof {
        use_type_invariant(&*tracker);
        vstd::seq_lib::seq_to_set_is_finite(tracker.titles@);
        lemma_party_titles_at_most_three(inp, room@);
        vstd::set_lib::lemma_len_union(old(tracker)@, party_titles(inp, room@));
    }
    let mut slot: usize = 0;
    while slot < 3
        invariant
            slot <= 3,
            tracker@ == old(tracker)@.union(
                Set::new(
                    |t: Title|
                        exists|i: int|
                            0 <= i < slot && spec_title_for(inp.party[i], inp, room@) == Some(t),
                ),
            ),
        decreases 3 - slot,
    {
        let ghost prev = tracker@;
        let title = title_for(inp.party[slot], inp, room);
        match title {
            Some(t) => tracker.insert(t),
            None => {},
        }
        assert(tracker@ =~= old(tracker)@.union(
            Set::new(
                |t: Title|
                    exists|i: int|
                        0 <= i < slot + 1 && spec_title_for(inp.party[i], inp, room@) == Some(t),
            ),
        )) by {
            assert forall|t: Title|
                (exists|i: int|
                    0 <= i < slot + 1 && spec_title_for(inp.party[i], inp, room@) == Some(t))
                    <==> ((exists|i: int|
                    0 <= i < slot && spec_title_for(inp.party[i], inp, room@) == Some(t)) || spec_title_for(
                    inp.party[slot as int],
                    inp,
                    room@,
                ) == Some(t)) by {
                if spec_title_for(inp.party[slot as int], inp, room@) == Some(t) {
                    assert(0 <= slot < slot + 1);
                }
            }
        }
        slot = slot + 1;
    }
    assert(party_titles(inp, room@) =~= Set::new(
        |t: Title| exists|i: int| 0 <= i < 3 && spec_title_for(inp.party[i], inp, room@) == Some(t),
    ));
}

/// Checking the titles twice on the same readings records nothing more than checking
/// once: the tracker after one check already holds the party's titles.
pub proof fn law_titles_check_idempotent(held: Set<Title>, inp: &TitleInputs, room: Seq<char>)
    ensures
        held.union(party_titles(inp, room)).union(party_titles(inp, room)) == held.union(
            party_titles(inp, room),
        ),
{
    assert(held.union(party_titles(inp, room)).union(party_titles(inp, room)) =~= held.union(
        party_titles(inp, room),
    ));
}

/// The tracker never forgets a title during a run: every title held before a check is
/// held after it.
pub proof fn law_titles_only_grow(held: Set<Title>, inp: &TitleInputs, room: Seq<char>, t: Title)
    requires
        held.contains(t),
    ensures
        held.union(party_titles(inp, room)).contains(t),
{
}

/// Each character's title depends on nothing but the chapter's rules for that
/// character: Noelle holds a title in chapter 2 only.
pub proof fn law_noelle_only_in_chapter_2(inp: &TitleInputs, room: Seq<char>)
    requires
        !eqc(inp.chapter, R_2),
    ensures
        noelle_title(inp) is None,
{
}

/// Kris's title (character id 1) in each chapter: each clause gives the title
/// that the chapter's first matching condition grants, in the order the game checks them;
/// outside chapters 1 to 5 Kris holds no title.
pub proof fn law_kris_titles(who: GameNum, inp: &TitleInputs, room: Seq<char>)
    requires
        eqc(who, R_1),
    ensures
        eqc(inp.chapter, R_1) && eqc(inp.flag_252, R_1)
            ==> spec_title_for(who, inp, room) == Some(Title::BedInspector),
        eqc(inp.chapter, R_1) && !(eqc(inp.flag_252, R_1)) && gec(inp.plot, R_30)
            ==> spec_title_for(who, inp, room) == Some(Title::Leader),
        eqc(inp.chapter, R_1) && !(eqc(inp.flag_252, R_1)) && !(gec(inp.plot, R_30))
            ==> spec_title_for(who, inp, room) == Some(Title::Human),
        eqc(inp.chapter, R_2) && gtc(inp.flag_915, R_0) && eqc(inp.flag_916, R_0)
            ==> spec_title_for(who, inp, room) == Some(Title::LeaderSideB),
        eqc(inp.chapter, R_2) && !(gtc(inp.flag_915, R_0) && eqc(inp.flag_916, R_0)) && eqc(inp.flag_920, R_1)
            ==> spec_title_for(who, inp, room) == Some(Title::MossFinder),
        eqc(inp.chapter, R_2) && !(gtc(inp.flag_915, R_0) && eqc(inp.flag_916, R_0)) && !(eqc(inp.flag_920, R_1)) && eqc(inp.flag_252, R_1)
            ==> spec_title_for(who, inp, room) == Some(Title::BedInspector),
        eqc(inp.chapter, R_2) && !(gtc(inp.flag_915, R_0) && eqc(inp.flag_916, R_0)) && !(eqc(inp.flag_920, R_1)) && !(eqc(inp.flag_252, R_1)) && gec(inp.plot, R_60)
            ==> spec_title_for(who, inp, room) == Some(Title::Tactician1),
        eqc(inp.chapter, R_2) && !(gtc(inp.flag_915, R_0) && eqc(inp.flag_916, R_0)) && !(eqc(inp.flag_920, R_1)) && !(eqc(inp.flag_252, R_1)) && !(gec(inp.plot, R_60))
            ==> spec_title_for(who, inp, room) == Some(Title::Leader),
        eqc(inp.chapter, R_3) && eqc(inp.flag_930, R_1)
            ==> spec_title_for(who, inp, room) == Some(Title::Enjoying),
        eqc(inp.chapter, R_3) && !(eqc(inp.flag_930, R_1)) && eqc(inp.flag_1055, R_6)
            ==> spec_title_for(who, inp, room) == Some(Title::Sheath),
        eqc(inp.chapter, R_3) && !(eqc(inp.flag_930, R_1)) && !(eqc(inp.flag_1055, R_6)) && eqc(inp.flag_1055, R_3)
            ==> spec_title_for(who, inp, room) == Some(Title::IceBlazer),
        eqc(inp.chapter, R_3) && !(eqc(inp.flag_930, R_1)) && !(eqc(inp.flag_1055, R_6)) && !(eqc(inp.flag_1055, R_3)) && eqc(inp.flag_1055, R_1)
            ==> spec_title_for(who, inp, room) == Some(Title::Blazer),
        eqc(inp.chapter, R_3) && !(eqc(inp.flag_930, R_1)) && !(eqc(inp.flag_1055, R_6)) && !(eqc(inp.flag_1055, R_3)) && !(eqc(inp.flag_1055, R_1)) && gec(inp.plot, R_250)
            ==> spec_title_for(who, inp, room) == Some(Title::Director),
        eqc(inp.chapter, R_3) && !(eqc(inp.flag_930, R_1)) && !(eqc(inp.flag_1055, R_6)) && !(eqc(inp.flag_1055, R_3)) && !(eqc(inp.flag_1055, R_1)) && !(gec(inp.plot, R_250))
            ==> spec_title_for(who, inp, room) == Some(Title::Tactician2),
        eqc(inp.chapter, R_4) && gec(inp.flag_915, R_7) && eqc(inp.flag_916, R_0)
            ==> spec_title_for(who, inp, room) == Some(Title::DarkBead),
        eqc(inp.chapter, R_4) && !(gec(inp.flag_915, R_7) && eqc(inp.flag_916, R_0)) && (eqc(inp.flag_106, R_1) && eqc(inp.flag_922, R_1) && eqc(inp.flag_1078, R_1) && eqc(inp.flag_1592, R_1))
            ==> spec_title_for(who, inp, room) == Some(Title::MossMost),
        eqc(inp.chapter, R_4) && !(gec(inp.flag_915, R_7) && eqc(inp.flag_916, R_0)) && !((eqc(inp.flag_106, R_1) && eqc(inp.flag_922, R_1) && eqc(inp.flag_1078, R_1) && eqc(inp.flag_1592, R_1)))
            ==> spec_title_for(who, inp, room) == Some(Title::DarkHeroBlade),
        eqc(inp.chapter, R_5) && inp.room_man_inst != 0
            ==> spec_title_for(who, inp, room) == Some(Title::LV1),
        eqc(inp.chapter, R_5) && !(inp.room_man_inst != 0) && inp.flag_1851_raw & 1 == 1
            ==> spec_title_for(who, inp, room) == Some(Title::Walkerstar),
        eqc(inp.chapter, R_5) && !(inp.room_man_inst != 0) && !(inp.flag_1851_raw & 1 == 1) && gec(inp.plot, R_398) && (eqc(inp.flag_106, R_1) && eqc(inp.flag_922, R_1) && eqc(inp.flag_1078, R_1) && eqc(inp.flag_1592, R_1))
            ==> spec_title_for(who, inp, room) == Some(Title::LastMoss),
        eqc(inp.chapter, R_5) && !(inp.room_man_inst != 0) && !(inp.flag_1851_raw & 1 == 1) && !(gec(inp.plot, R_398) && (eqc(inp.flag_106, R_1) && eqc(inp.flag_922, R_1) && eqc(inp.flag_1078, R_1) && eqc(inp.flag_1592, R_1))) && gec(inp.flag_1846, R_2)
            ==> spec_title_for(who, inp, room) == Some(Title::PinkRose),
        eqc(inp.chapter, R_5) && !(inp.room_man_inst != 0) && !(inp.flag_1851_raw & 1 == 1) && !(gec(inp.plot, R_398) && (eqc(inp.flag_106, R_1) && eqc(inp.flag_922, R_1) && eqc(inp.flag_1078, R_1) && eqc(inp.flag_1592, R_1))) && !(gec(inp.flag_1846, R_2)) && gec(inp.plot, R_440)
            ==> spec_title_for(who, inp, room) == Some(Title::DarkRose),
        eqc(inp.chapter, R_5) && !(inp.room_man_inst != 0) && !(inp.flag_1851_raw & 1 == 1) && !(gec(inp.plot, R_398) && (eqc(inp.flag_106, R_1) && eqc(inp.flag_922, R_1) && eqc(inp.flag_1078, R_1) && eqc(inp.flag_1592, R_1))) && !(gec(inp.flag_1846, R_2)) && !(gec(inp.plot, R_440)) && eqc(inp.flag_1743, R_1)
            ==> spec_title_for(who, inp, room) == Some(Title::ShatteredRose),
        eqc(inp.chapter, R_5) && !(inp.room_man_inst != 0) && !(inp.flag_1851_raw & 1 == 1) && !(gec(inp.plot, R_398) && (eqc(inp.flag_106, R_1) && eqc(inp.flag_922, R_1) && eqc(inp.flag_1078, R_1) && eqc(inp.flag_1592, R_1))) && !(gec(inp.flag_1846, R_2)) && !(gec(inp.plot, R_440)) && !(eqc(inp.flag_1743, R_1))
            ==> spec_title_for(who, inp, room) == Some(Title::BlueRose),
        !eqc(inp.chapter, R_1) && !eqc(inp.chapter, R_2) && !eqc(inp.chapter, R_3) && !eqc(inp.chapter, R_4) && !eqc(inp.chapter, R_5) ==> spec_title_for(who, inp, room) is None,
{
    reveal_strlit("room_dw_church_bookcase");
}

/// Susie's title (character id 2) in each chapter: each clause gives the title
/// that the chapter's first matching condition grants, in the order the game checks them;
/// outside chapters 1 to 5 Susie holds no title.
pub proof fn law_susie_titles(who: GameNum, inp: &TitleInputs, room: Seq<char>)
    requires
        eqc(who, R_2),
    ensures
        eqc(inp.chapter, R_1) && gec(inp.plot, R_154)
            ==> spec_title_for(who, inp, room) == Some(Title::DarkKnight),
        eqc(inp.chapter, R_1) && !(gec(inp.plot, R_154))
            ==> spec_title_for(who, inp, room) == Some(Title::MeanGirl),
        eqc(inp.chapter, R_2) && eqc(inp.flag_922, R_1)
            ==> spec_title_for(who, inp, room) == Some(Title::MossEnjoyer),
        eqc(inp.chapter, R_2) && !(eqc(inp.flag_922, R_1)) && gec(inp.plot, R_95)
            ==> spec_title_for(who, inp, room) == Some(Title::HealingMaster),
        eqc(inp.chapter, R_2) && !(eqc(inp.flag_922, R_1)) && !(gec(inp.plot, R_95))
            ==> spec_title_for(who, inp, room) == Some(Title::DarkKnight),
        eqc(inp.chapter, R_3) && gec(inp.plot, R_250)
            ==> spec_title_for(who, inp, room) == Some(Title::DarkActorS),
        eqc(inp.chapter, R_3) && !(gec(inp.plot, R_250))
            ==> spec_title_for(who, inp, room) == Some(Title::DarkKnight),
        eqc(inp.chapter, R_4) && gtc(inp.flag_852, R_0)
            ==> spec_title_for(who, inp, room) == Some(Title::AxeOfJustice),
        eqc(inp.chapter, R_4) && !(gtc(inp.flag_852, R_0))
            ==> spec_title_for(who, inp, room) == Some(Title::DarkHeroBlade),
        eqc(inp.chapter, R_5) && gec(inp.plot, R_440)
            ==> spec_title_for(who, inp, room) == Some(Title::DarkVineS),
        eqc(inp.chapter, R_5) && !(gec(inp.plot, R_440))
            ==> spec_title_for(who, inp, room) == Some(Title::ViolentViolet),
        !eqc(inp.chapter, R_1) && !eqc(inp.chapter, R_2) && !eqc(inp.chapter, R_3) && !eqc(inp.chapter, R_4) && !eqc(inp.chapter, R_5) ==> spec_title_for(who, inp, room) is None,
{
    reveal_strlit("room_dw_church_bookcase");
}

/// Ralsei's title (character id 3) in each chapter: each clause gives the title
/// that the chapter's first matching condition grants, in the order the game checks them;
/// outside chapters 1 to 5 Ralsei holds no title.
pub proof fn law_ralsei_titles(who: GameNum, inp: &TitleInputs, room: Seq<char>)
    requires
        eqc(who, R_3),
    ensures
        eqc(inp.chapter, R_1) && eqc(inp.ralsei_weapon, R_10)
            ==> spec_title_for(who, inp, room) == Some(Title::FluffyPrince),
        eqc(inp.chapter, R_1) && !(eqc(inp.ralsei_weapon, R_10)) && eqc(inp.ralsei_weapon, R_9)
            ==> spec_title_for(who, inp, room) == Some(Title::PricklyPrince),
        eqc(inp.chapter, R_1) && !(eqc(inp.ralsei_weapon, R_10)) && !(eqc(inp.ralsei_weapon, R_9))
            ==> spec_title_for(who, inp, room) == Some(Title::LonelyPrince),
        eqc(inp.chapter, R_2) && eqc(inp.flag_325, R_1)
            ==> spec_title_for(who, inp, room) == Some(Title::HugPrince),
        eqc(inp.chapter, R_2) && !(eqc(inp.flag_325, R_1)) && eqc(inp.flag_325, R_2)
            ==> spec_title_for(who, inp, room) == Some(Title::PosePrince),
        eqc(inp.chapter, R_2) && !(eqc(inp.flag_325, R_1)) && !(eqc(inp.flag_325, R_2)) && eqc(inp.flag_325, R_3)
            ==> spec_title_for(who, inp, room) == Some(Title::RudePrince),
        eqc(inp.chapter, R_2) && !(eqc(inp.flag_325, R_1)) && !(eqc(inp.flag_325, R_2)) && !(eqc(inp.flag_325, R_3)) && eqc(inp.flag_325, R_4)
            ==> spec_title_for(who, inp, room) == Some(Title::BlankPrince),
        eqc(inp.chapter, R_2) && !(eqc(inp.flag_325, R_1)) && !(eqc(inp.flag_325, R_2)) && !(eqc(inp.flag_325, R_3)) && !(eqc(inp.flag_325, R_4))
            ==> spec_title_for(who, inp, room) == Some(Title::DarkPrince1),
        eqc(inp.chapter, R_3) && gec(inp.plot, R_250)
            ==> spec_title_for(who, inp, room) == Some(Title::DarkActorR),
        eqc(inp.chapter, R_3) && !(gec(inp.plot, R_250))
            ==> spec_title_for(who, inp, room) == Some(Title::DarkPrince2),
        eqc(inp.chapter, R_4) && gec(inp.plot, R_145) && room == "room_dw_church_bookcase"@
            ==> spec_title_for(who, inp, room) == Some(Title::StoolBoy),
        eqc(inp.chapter, R_4) && !(gec(inp.plot, R_145) && room == "room_dw_church_bookcase"@)
            ==> spec_title_for(who, inp, room) == Some(Title::DarkHeroRecords),
        eqc(inp.chapter, R_5) && (exists|i: int| 0 <= i < inp.caterpillar_names.len() && #[trigger] inp.caterpillar_names[i]@ == "flowery".spec_bytes())
            ==> spec_title_for(who, inp, room) == Some(Title::Roommate),
        eqc(inp.chapter, R_5) && !((exists|i: int| 0 <= i < inp.caterpillar_names.len() && #[trigger] inp.caterpillar_names[i]@ == "flowery".spec_bytes())) && gec(inp.plot, R_440)
            ==> spec_title_for(who, inp, room) == Some(Title::DarkVineR),
        eqc(inp.chapter, R_5) && !((exists|i: int| 0 <= i < inp.caterpillar_names.len() && #[trigger] inp.caterpillar_names[i]@ == "flowery".spec_bytes())) && !(gec(inp.plot, R_440))
            ==> spec_title_for(who, inp, room) == Some(Title::Artemisia),
        !eqc(inp.chapter, R_1) && !eqc(inp.chapter, R_2) && !eqc(inp.chapter, R_3) && !eqc(inp.chapter, R_4) && !eqc(inp.chapter, R_5) ==> spec_title_for(who, inp, room) is None,
{
    reveal_strlit("room_dw_church_bookcase");
}

/// Noelle's title (character id 4) in each chapter: each clause gives the title
/// that the chapter's first matching condition grants, in the order the game checks them;
/// outside chapter 2 Noelle holds no title.
pub proof fn law_noelle_titles(who: GameNum, inp: &TitleInputs, room: Seq<char>)
    requires
        eqc(who, R_4),
    ensures
        eqc(inp.chapter, R_2) && eqc(inp.flag_921, R_1) && (!eqc(inp.flag_916, R_0) || lec(inp.flag_915, R_0))
            ==> spec_title_for(who, inp, room) == Some(Title::MossNeutral),
        eqc(inp.chapter, R_2) && !(eqc(inp.flag_921, R_1) && (!eqc(inp.flag_916, R_0) || lec(inp.flag_915, R_0))) && eqc(inp.noelle_weapon, R_13)
            ==> spec_title_for(who, inp, room) == Some(Title::IceTrancer),
        eqc(inp.chapter, R_2) && !(eqc(inp.flag_921, R_1) && (!eqc(inp.flag_916, R_0) || lec(inp.flag_915, R_0))) && !(eqc(inp.noelle_weapon, R_13)) && gtc(inp.flag_925, R_0)
            ==> spec_title_for(who, inp, room) == Some(Title::Frostmancer),
        eqc(inp.chapter, R_2) && !(eqc(inp.flag_921, R_1) && (!eqc(inp.flag_916, R_0) || lec(inp.flag_915, R_0))) && !(eqc(inp.noelle_weapon, R_13)) && !(gtc(inp.flag_925, R_0))
            ==> spec_title_for(who, inp, room) == Some(Title::Snowcaster),
        !eqc(inp.chapter, R_2) ==> spec_title_for(who, inp, room) is None,
{
    reveal_strlit("room_dw_church_bookcase");
}


} // verus!
