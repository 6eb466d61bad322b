use deltarune_autosplit::num::GameNum;
use deltarune_autosplit::titles::{title_for, titles_check, Title, TitleInputs, TitleTracker};

fn n(x: f64) -> GameNum {
    GameNum::from_bits(x.to_bits())
}

fn inputs(chapter: f64, plot: f64) -> TitleInputs {
    TitleInputs {
        chapter: n(chapter),
        plot: n(plot),
        party: [n(1.0), n(2.0), n(3.0)],
        flag_106: n(0.0),
        flag_252: n(0.0),
        flag_325: n(0.0),
        flag_852: n(0.0),
        flag_915: n(0.0),
        flag_916: n(0.0),
        flag_920: n(0.0),
        flag_921: n(0.0),
        flag_922: n(0.0),
        flag_925: n(0.0),
        flag_930: n(0.0),
        flag_1055: n(0.0),
        flag_1078: n(0.0),
        flag_1592: n(0.0),
        flag_1743: n(0.0),
        flag_1846: n(0.0),
        flag_1851_raw: 0,
        ralsei_weapon: n(0.0),
        noelle_weapon: n(0.0),
        room_man_inst: 0,
        caterpillar_names: Vec::new(),
    }
}

#[test]
fn kris_chapter_1() {
    let mut i = inputs(1.0, 0.0);
    assert_eq!(title_for(n(1.0), &i, "room_town"), Some(Title::Human));
    i.plot = n(30.0);
    assert_eq!(title_for(n(1.0), &i, "room_town"), Some(Title::Leader));
    i.flag_252 = n(1.0);
    assert_eq!(title_for(n(1.0), &i, "room_town"), Some(Title::BedInspector));
}

#[test]
fn kris_chapter_2_order_of_rules() {
    let mut i = inputs(2.0, 60.0);
    assert_eq!(title_for(n(1.0), &i, ""), Some(Title::Tactician1));
    i.flag_252 = n(1.0);
    assert_eq!(title_for(n(1.0), &i, ""), Some(Title::BedInspector));
    i.flag_920 = n(1.0);
    assert_eq!(title_for(n(1.0), &i, ""), Some(Title::MossFinder));
    i.flag_915 = n(2.0);
    assert_eq!(title_for(n(1.0), &i, ""), Some(Title::LeaderSideB));
    i.flag_916 = n(1.0);
    assert_eq!(title_for(n(1.0), &i, ""), Some(Title::MossFinder));
}

#[test]
fn kris_chapter_3_sword_progress() {
    let mut i = inputs(3.0, 0.0);
    assert_eq!(title_for(n(1.0), &i, ""), Some(Title::Tactician2));
    i.plot = n(250.0);
    assert_eq!(title_for(n(1.0), &i, ""), Some(Title::Director));
    i.flag_1055 = n(1.0);
    assert_eq!(title_for(n(1.0), &i, ""), Some(Title::Blazer));
    i.flag_1055 = n(3.0);
    assert_eq!(title_for(n(1.0), &i, ""), Some(Title::IceBlazer));
    i.flag_1055 = n(6.0);
    assert_eq!(title_for(n(1.0), &i, ""), Some(Title::Sheath));
    i.flag_930 = n(1.0);
    assert_eq!(title_for(n(1.0), &i, ""), Some(Title::Enjoying));
}

#[test]
fn kris_chapter_4_and_5() {
    let mut i = inputs(4.0, 0.0);
    assert_eq!(title_for(n(1.0), &i, ""), Some(Title::DarkHeroBlade));
    i.flag_106 = n(1.0);
    i.flag_922 = n(1.0);
    i.flag_1078 = n(1.0);
    i.flag_1592 = n(1.0);
    assert_eq!(title_for(n(1.0), &i, ""), Some(Title::MossMost));
    i.flag_915 = n(7.0);
    assert_eq!(title_for(n(1.0), &i, ""), Some(Title::DarkBead));

    let mut j = inputs(5.0, 398.0);
    assert_eq!(title_for(n(1.0), &j, ""), Some(Title::BlueRose));
    j.flag_106 = n(1.0);
    j.flag_922 = n(1.0);
    j.flag_1078 = n(1.0);
    j.flag_1592 = n(1.0);
    assert_eq!(title_for(n(1.0), &j, ""), Some(Title::LastMoss));
    j.flag_1851_raw = 3;
    assert_eq!(title_for(n(1.0), &j, ""), Some(Title::Walkerstar));
    j.room_man_inst = 0x1234;
    assert_eq!(title_for(n(1.0), &j, ""), Some(Title::LV1));

    let mut k = inputs(5.0, 440.0);
    assert_eq!(title_for(n(1.0), &k, ""), Some(Title::DarkRose));
    k.flag_1846 = n(2.0);
    assert_eq!(title_for(n(1.0), &k, ""), Some(Title::PinkRose));
    let mut m = inputs(5.0, 0.0);
    m.flag_1743 = n(1.0);
    assert_eq!(title_for(n(1.0), &m, ""), Some(Title::ShatteredRose));
}

#[test]
fn susie_titles() {
    assert_eq!(title_for(n(2.0), &inputs(1.0, 153.0), ""), Some(Title::MeanGirl));
    assert_eq!(title_for(n(2.0), &inputs(1.0, 154.0), ""), Some(Title::DarkKnight));
    assert_eq!(title_for(n(2.0), &inputs(2.0, 95.0), ""), Some(Title::HealingMaster));
    let mut i = inputs(2.0, 0.0);
    i.flag_922 = n(1.0);
    assert_eq!(title_for(n(2.0), &i, ""), Some(Title::MossEnjoyer));
    assert_eq!(title_for(n(2.0), &inputs(3.0, 250.0), ""), Some(Title::DarkActorS));
    let mut j = inputs(4.0, 0.0);
    assert_eq!(title_for(n(2.0), &j, ""), Some(Title::DarkHeroBlade));
    j.flag_852 = n(0.5);
    assert_eq!(title_for(n(2.0), &j, ""), Some(Title::AxeOfJustice));
    assert_eq!(title_for(n(2.0), &inputs(5.0, 439.0), ""), Some(Title::ViolentViolet));
    assert_eq!(title_for(n(2.0), &inputs(5.0, 440.0), ""), Some(Title::DarkVineS));
    assert_eq!(title_for(n(2.0), &inputs(6.0, 0.0), ""), None);
}

#[test]
fn ralsei_titles() {
    let mut i = inputs(1.0, 0.0);
    assert_eq!(title_for(n(3.0), &i, ""), Some(Title::LonelyPrince));
    i.ralsei_weapon = n(9.0);
    assert_eq!(title_for(n(3.0), &i, ""), Some(Title::PricklyPrince));
    i.ralsei_weapon = n(10.0);
    assert_eq!(title_for(n(3.0), &i, ""), Some(Title::FluffyPrince));
    let mut j = inputs(2.0, 0.0);
    let expected = [
        (0.0, Title::DarkPrince1),
        (1.0, Title::HugPrince),
        (2.0, Title::PosePrince),
        (3.0, Title::RudePrince),
        (4.0, Title::BlankPrince),
    ];
    for (flag, title) in expected {
        j.flag_325 = n(flag);
        assert_eq!(title_for(n(3.0), &j, ""), Some(title));
    }
    assert_eq!(title_for(n(3.0), &inputs(3.0, 0.0), ""), Some(Title::DarkPrince2));
    let k = inputs(4.0, 145.0);
    assert_eq!(title_for(n(3.0), &k, "room_dw_church_bookcase"), Some(Title::StoolBoy));
    assert_eq!(title_for(n(3.0), &k, "room_dw_church_bookcase_ch1"), Some(Title::DarkHeroRecords));
    assert_eq!(title_for(n(3.0), &inputs(4.0, 144.0), "room_dw_church_bookcase"), Some(Title::DarkHeroRecords));
    let mut m = inputs(5.0, 440.0);
    assert_eq!(title_for(n(3.0), &m, ""), Some(Title::DarkVineR));
    m.caterpillar_names = vec![b"ralsei".to_vec(), b"flowery".to_vec()];
    assert_eq!(title_for(n(3.0), &m, ""), Some(Title::Roommate));
    m.caterpillar_names = vec![b"flowery2".to_vec()];
    assert_eq!(title_for(n(3.0), &m, ""), Some(Title::DarkVineR));
    assert_eq!(title_for(n(3.0), &inputs(5.0, 0.0), ""), Some(Title::Artemisia));
}

#[test]
fn noelle_titles() {
    let mut i = inputs(2.0, 0.0);
    assert_eq!(title_for(n(4.0), &i, ""), Some(Title::Snowcaster));
    i.flag_925 = n(1.0);
    assert_eq!(title_for(n(4.0), &i, ""), Some(Title::Frostmancer));
    i.noelle_weapon = n(13.0);
    assert_eq!(title_for(n(4.0), &i, ""), Some(Title::IceTrancer));
    i.flag_921 = n(1.0);
    assert_eq!(title_for(n(4.0), &i, ""), Some(Title::MossNeutral));
    i.flag_915 = n(1.0);
    assert_eq!(title_for(n(4.0), &i, ""), Some(Title::IceTrancer));
    assert_eq!(title_for(n(4.0), &inputs(3.0, 0.0), ""), None);
    assert_eq!(title_for(n(5.0), &inputs(2.0, 0.0), ""), None);
}

#[test]
fn tracker_collects_the_party_once() {
    let mut t = TitleTracker::new();
    assert_eq!(t.len(), 0);
    let i = inputs(1.0, 0.0);
    titles_check(&mut t, &i, "room_town");
    assert_eq!(t.len(), 3);
    assert!(t.contains(Title::Human));
    assert!(t.contains(Title::MeanGirl));
    assert!(t.contains(Title::LonelyPrince));
    titles_check(&mut t, &i, "room_town");
    assert_eq!(t.len(), 3);
    let mut j = inputs(1.0, 154.0);
    j.party = [n(1.0), n(1.0), n(0.0)];
    titles_check(&mut t, &j, "room_town");
    assert_eq!(t.len(), 4);
    assert!(t.contains(Title::Leader));
    assert!(!t.contains(Title::DarkKnight));
    t.clear();
    assert_eq!(t.len(), 0);
    t.insert(Title::Roommate);
    t.insert(Title::Roommate);
    assert_eq!(t.len(), 1);
}
