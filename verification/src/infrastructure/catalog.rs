//! The example catalogue of faculties and majors.
use vstd::prelude::*;

use crate::domain::{
    Id, is_uuid_v4,
    faculty::{Faculty, FacultyView, faculty_views, major_views},
    major::Major,
};

verus! {

/// Every major that a faculty lists belongs to that faculty.
pub open spec fn majors_belong(faculties: Seq<FacultyView>) -> bool {
    forall|i: int, j: int|
        0 <= i < faculties.len() && 0 <= j < faculties[i].majors.len() ==> #[trigger] faculties[i].majors[j].faculty_id
            == faculties[i].id
}

/// The names of the example faculties, each with the names of its majors.
pub open spec fn example_catalog() -> Seq<(Seq<char>, Seq<Seq<char>>)> {
    seq![
        ("教養教育"@, seq!["共通"@]),
        ("文学部"@, seq!["人文学科"@]),
        ("教育学部"@, seq!["教員養成"@, "養護教諭養成"@]),
        ("法学部"@, seq!["法学科"@]),
        ("経済学部"@, seq!["経済学科"@]),
        ("理学部"@, seq!["共通"@, "数学科"@, "物理学科"@, "化学科"@, "生物学科"@, "地球科学科"@]),
        ("医学部"@, seq!["医学科"@, "保健 - 看護"@, "保健 - 放射線"@, "保健 - 検査技術"@]),
        ("歯学部"@, seq!["薬学科"@, "創薬科学科"@]),
        ("工学部"@, seq!["共通"@, "機械システム共通"@, "機械システム - 機械"@, "機械システム - 知能"@, "環境社会共通"@, "環境社会 - 都市"@, "環境社会 - 環境"@, "情電数学共通"@, "情電数学 - IT"@, "情電数学 - NE"@, "情電数学 - EE"@, "情電数学 - DS"@, "化学生命共通"@, "化学生命 - 応用化学"@, "化学生命 - 生命工学"@]),
        ("農学部"@, seq!["農学科"@]),
        ("GDP"@, seq!["GDP"@]),
    ]
}

/// A faculty named `name` whose majors are named after `major_names`.
pub open spec fn faculty_named(f: FacultyView, name: Seq<char>, major_names: Seq<Seq<char>>) -> bool {
    &&& f.name == name
    &&& f.majors.len() == major_names.len()
    &&& forall|j: int| 0 <= j < major_names.len() ==> #[trigger] f.majors[j].name == major_names[j]
}

/// The names of a list of string slices.
pub open spec fn names_of(names: Seq<&str>) -> Seq<Seq<char>> {
    names.map_values(|n: &str| n@)
}

/// Flipping some of the low 48 bits of a version-4 UUID leaves a version-4
/// UUID.
proof fn lemma_xor_low_bits_keeps_v4(r: u128, k: u128)
    requires
        is_uuid_v4(r),
        k < 0x1_0000_0000_0000u128,
    ensures
        is_uuid_v4(r ^ k),
{
    assert(((r ^ k) >> 76u128) & 0xfu128 == (r >> 76u128) & 0xfu128) by (bit_vector)
        requires
            k < 0x1_0000_0000_0000u128,
    ;
    assert(((r ^ k) >> 62u128) & 0x3u128 == (r >> 62u128) & 0x3u128) by (bit_vector)
        requires
            k < 0x1_0000_0000_0000u128,
    ;
}

/// The `n + 1` values `r ^ 0`, ..., `r ^ n` cannot all be among `n` values.
proof fn lemma_some_candidate_unused(r: u128, used: Seq<u128>)
    requires
        used.len() < 0x1_0000_0000_0000,
    ensures
        exists|j: u128| j <= used.len() && !used.contains(#[trigger] (r ^ j)),
{
    if forall|j: u128| j <= used.len() ==> used.contains(#[trigger] (r ^ j)) {
        lemma_candidates_all_used_impossible(r, used);
    }
}

/// Helper of [`lemma_some_candidate_unused`]: all `n + 1` candidates among
/// `n` values would make a set of `n + 1` elements inside one of at most `n`.
proof fn lemma_candidates_all_used_impossible(r: u128, used: Seq<u128>)
    requires
        used.len() < 0x1_0000_0000_0000,
        forall|j: u128| j <= used.len() ==> used.contains(#[trigger] (r ^ j)),
    ensures
        used.len() + 1 <= used.len(),
{
    broadcast use vstd::seq_lib::seq_to_set_is_finite;

    let n = used.len();
    let cands = Seq::new(n + 1, |j: int| r ^ (j as u128));
    assert forall|a: int, b: int|
        0 <= a < cands.len() && 0 <= b < cands.len() && a != b implies cands[a] != cands[b] by {
        let x = a as u128;
        let y = b as u128;
        assert(x != y);
        assert((r ^ x) != (r ^ y)) by (bit_vector)
            requires
                x != y,
        ;
    }
    assert(cands.no_duplicates());
    cands.unique_seq_to_set();
    assert forall|x: u128| cands.to_set().contains(x) implies used.to_set().contains(x) by {
        let a = choose|a: int| 0 <= a < cands.len() && cands[a] == x;
        let j = a as u128;
        assert(j <= used.len());
        assert(used.contains(r ^ j));
    }
    assert(cands.to_set().subset_of(used.to_set()));
    vstd::set_lib::lemma_len_subset(cands.to_set(), used.to_set());
    used.lemma_cardinality_of_set();
}

/// Whether `id` is among `used`.
fn is_used(used: &Vec<u128>, id: u128) -> (res: bool)
    ensures
        res == used@.contains(id),
{
    let mut i: usize = 0;
    while i < used.len()
        invariant
            i <= used@.len(),
            forall|j: int| 0 <= j < i ==> used@[j] != id,
        decreases used@.len() - i,
    {
        if used[i] == id {
            assert(used@[i as int] == id);
            return true;
        }
        i = i + 1;
    }
    false
}

/// An identifier drawn as `r` that no identifier in `used` repeats: `r` itself
/// when `used` does not hold it, else the first of `r ^ 1`, `r ^ 2`, ... that
/// `used` does not hold (flipping only low bits, so it stays a version-4 UUID).
fn unused_id(r: u128, used: &Vec<u128>) -> (res: u128)
    requires
        is_uuid_v4(r),
        used@.len() < 0x1_0000_0000_0000,
    ensures
        is_uuid_v4(res),
        !used@.contains(res),
        !used@.contains(r) ==> res == r,
{
    let n = used.len() as u128;
    let mut k: u128 = 0;
    assert(r ^ 0u128 == r) by (bit_vector);
    while k <= n
        invariant
            n == used@.len(),
            n < 0x1_0000_0000_0000u128,
            k <= n + 1,
            is_uuid_v4(r),
            r ^ 0u128 == r,
            forall|j: u128| j < k ==> used@.contains(#[trigger] (r ^ j)),
        decreases n + 1 - k,
    {
        let c = r ^ k;
        if !is_used(used, c) {
            proof {
                lemma_xor_low_bits_keeps_v4(r, k);
                if k > 0 {
                    assert(used@.contains(r ^ 0u128));
                }
            }
            return c;
        }
        k = k + 1;
    }
    proof {
        lemma_some_candidate_unused(r, used@);
    }
    r
}

/// Every major of every faculty has a version-4 UUID, and no two majors (of
/// one faculty or of two) share one.
pub open spec fn major_ids_fresh(faculties: Seq<FacultyView>) -> bool {
    &&& forall|f: int, m: int|
        0 <= f < faculties.len() && 0 <= m < faculties[f].majors.len() ==> is_uuid_v4(
            #[trigger] faculties[f].majors[m].id,
        )
    &&& forall|f1: int, m1: int, f2: int, m2: int|
        0 <= f1 < faculties.len() && 0 <= m1 < faculties[f1].majors.len() && 0 <= f2
            < faculties.len() && 0 <= m2 < faculties[f2].majors.len() && (f1 != f2 || m1 != m2)
            ==> #[trigger] faculties[f1].majors[m1].id != #[trigger] faculties[f2].majors[m2].id
}

/// Every major identifier of `faculties` is among `used`.
pub open spec fn major_ids_recorded(faculties: Seq<FacultyView>, used: Seq<u128>) -> bool {
    forall|f: int, m: int|
        0 <= f < faculties.len() && 0 <= m < faculties[f].majors.len() ==> used.contains(
            #[trigger] faculties[f].majors[m].id,
        )
}

/// A faculty with a fresh random identifier, named `name`, whose majors are
/// named after `major_names`, each with a fresh random identifier of its own
/// that no identifier in `used` repeats; those identifiers are added to
/// `used`.
fn faculty_with_majors(name: &str, major_names: &[&str], used: &mut Vec<u128>) -> (res: Faculty)
    requires
        old(used)@.len() + major_names@.len() < 0x1_0000_0000_0000,
    ensures
        faculty_named(res@, name@, names_of(major_names@)),
        is_uuid_v4(res@.id),
        forall|j: int| 0 <= j < res@.majors.len() ==> (#[trigger] res@.majors[j]).faculty_id == res@.id,
        forall|j: int| 0 <= j < res@.majors.len() ==> is_uuid_v4(#[trigger] res@.majors[j].id),
        forall|j: int| 0 <= j < res@.majors.len() ==> !old(used)@.contains(#[trigger] res@.majors[j].id),
        forall|j: int| 0 <= j < res@.majors.len() ==> final(used)@.contains(#[trigger] res@.majors[j].id),
        forall|j1: int, j2: int|
            0 <= j1 < res@.majors.len() && 0 <= j2 < res@.majors.len() && j1 != j2
                ==> #[trigger] res@.majors[j1].id != #[trigger] res@.majors[j2].id,
        forall|x: u128| old(used)@.contains(x) ==> final(used)@.contains(x),
        final(used)@.len() == old(used)@.len() + major_names@.len(),
{
    broadcast use vstd::seq_lib::group_seq_properties;

    let faculty_id: Id<Faculty> = Id::generate();
    let mut majors: Vec<Major> = Vec::new();
    let mut i: usize = 0;
    while i < major_names.len()
        invariant
            i <= major_names@.len(),
            old(used)@.len() + major_names@.len() < 0x1_0000_0000_0000,
            used@.len() == old(used)@.len() + i,
            major_views(majors@).len() == i,
            forall|j: int| 0 <= j < i ==> (#[trigger] major_views(majors@)[j]).name == major_names@[j]@,
            forall|j: int| 0 <= j < i ==> (#[trigger] major_views(majors@)[j]).faculty_id == faculty_id.value(),
            forall|j: int| 0 <= j < i ==> is_uuid_v4(#[trigger] major_views(majors@)[j].id),
            forall|j: int| 0 <= j < i ==> !old(used)@.contains(#[trigger] major_views(majors@)[j].id),
            forall|j: int| 0 <= j < i ==> used@.contains(#[trigger] major_views(majors@)[j].id),
            forall|j1: int, j2: int|
                0 <= j1 < i && 0 <= j2 < i && j1 != j2 ==> #[trigger] major_views(majors@)[j1].id
                    != #[trigger] major_views(majors@)[j2].id,
            forall|x: u128| old(used)@.contains(x) ==> used@.contains(x),
        decreases major_names@.len() - i,
    {
        let drawn: Id<Major> = Id::generate();
        let id = unused_id(drawn.id(), used);
        let major = Major::new(Id::new(id), major_names[i].to_owned(), faculty_id);
        let ghost prev = majors@;
        let ghost prev_used = used@;
        majors.push(major);
        used.push(id);
        assert(major_views(majors@) =~= major_views(prev).push(major@));
        assert forall|x: u128| prev_used.contains(x) implies used@.contains(x) by {
            let k = choose|k: int| 0 <= k < prev_used.len() && prev_used[k] == x;
            assert(used@[k] == x);
        }
        assert(used@[prev_used.len() as int] == id);
        i = i + 1;
    }
    Faculty::new(faculty_id, name.to_owned(), majors)
}

/// Adding a faculty whose major identifiers are fresh (version 4, distinct,
/// none yet used) keeps the identifiers of a catalogue fresh and recorded.
proof fn lemma_add_faculty_with_fresh_majors(
    faculties: Seq<FacultyView>,
    used: Seq<u128>,
    f: FacultyView,
    used2: Seq<u128>,
)
    requires
        major_ids_fresh(faculties),
        major_ids_recorded(faculties, used),
        forall|j: int| 0 <= j < f.majors.len() ==> is_uuid_v4(#[trigger] f.majors[j].id),
        forall|j: int| 0 <= j < f.majors.len() ==> !used.contains(#[trigger] f.majors[j].id),
        forall|j: int| 0 <= j < f.majors.len() ==> used2.contains(#[trigger] f.majors[j].id),
        forall|j1: int, j2: int|
            0 <= j1 < f.majors.len() && 0 <= j2 < f.majors.len() && j1 != j2
                ==> #[trigger] f.majors[j1].id != #[trigger] f.majors[j2].id,
        forall|x: u128| used.contains(x) ==> used2.contains(x),
    ensures
        major_ids_fresh(faculties.push(f)),
        major_ids_recorded(faculties.push(f), used2),
{
    let after = faculties.push(f);
    let n = faculties.len() as int;
    assert forall|a: int, m: int| 0 <= a < after.len() && 0 <= m < after[a].majors.len() implies is_uuid_v4(
        #[trigger] after[a].majors[m].id,
    ) && used2.contains(after[a].majors[m].id) by {
        if a < n {
            assert(after[a] == faculties[a]);
            assert(used.contains(faculties[a].majors[m].id));
        }
    }
    assert forall|f1: int, m1: int, f2: int, m2: int|
        0 <= f1 < after.len() && 0 <= m1 < after[f1].majors.len() && 0 <= f2 < after.len() && 0
            <= m2 < after[f2].majors.len() && (f1 != f2 || m1 != m2) implies #[trigger] after[f1].majors[m1].id
        != #[trigger] after[f2].majors[m2].id by {
        if f1 < n && f2 < n {
            assert(after[f1] == faculties[f1]);
            assert(after[f2] == faculties[f2]);
        } else if f1 < n {
            assert(after[f1] == faculties[f1]);
            assert(used.contains(faculties[f1].majors[m1].id));
        } else if f2 < n {
            assert(after[f2] == faculties[f2]);
            assert(used.contains(faculties[f2].majors[m2].id));
        }
    }
}

/// The example faculties and their majors, each with a fresh random
/// identifier; every major refers to the faculty that lists it.
pub fn example_faculties() -> (res: Vec<Faculty>)
    ensures
        majors_belong(faculty_views(res@)),
        faculty_views(res@).len() == example_catalog().len(),
        forall|i: int|
            0 <= i < example_catalog().len() ==> faculty_named(
                #[trigger] faculty_views(res@)[i],
                example_catalog()[i].0,
                example_catalog()[i].1,
            ),
        forall|i: int| 0 <= i < faculty_views(res@).len() ==> is_uuid_v4(#[trigger] faculty_views(res@)[i].id),
        major_ids_fresh(faculty_views(res@)),
{
    let mut res: Vec<Faculty> = Vec::new();
    let mut used: Vec<u128> = Vec::new();
    proof {
        assert(faculty_views(res@) =~= Seq::<FacultyView>::empty());
    }
    let names0: [&str; 1] = ["共通"];
    let ghost before0 = faculty_views(res@);
    let ghost used_before0 = used@;
    let f0 = faculty_with_majors("教養教育", &names0, &mut used);
    proof {
        assert(names_of(names0@) =~= seq!["共通"@]);
    }
    res.push(f0);
    proof {
        assert(faculty_views(res@) =~= before0.push(f0@));
        lemma_add_faculty_with_fresh_majors(before0, used_before0, f0@, used@);
    }
    let names1: [&str; 1] = ["人文学科"];
    let ghost before1 = faculty_views(res@);
    let ghost used_before1 = used@;
    let f1 = faculty_with_majors("文学部", &names1, &mut used);
    proof {
        assert(names_of(names1@) =~= seq!["人文学科"@]);
    }
    res.push(f1);
    proof {
        assert(faculty_views(res@) =~= before1.push(f1@));
        lemma_add_faculty_with_fresh_majors(before1, used_before1, f1@, used@);
    }
    let names2: [&str; 2] = ["教員養成", "養護教諭養成"];
    let ghost before2 = faculty_views(res@);
    let ghost used_before2 = used@;
    let f2 = faculty_with_majors("教育学部", &names2, &mut used);
    proof {
        assert(names_of(names2@) =~= seq!["教員養成"@, "養護教諭養成"@]);
    }
    res.push(f2);
    proof {
        assert(faculty_views(res@) =~= before2.push(f2@));
        lemma_add_faculty_with_fresh_majors(before2, used_before2, f2@, used@);
    }
    let names3: [&str; 1] = ["法学科"];
    let ghost before3 = faculty_views(res@);
    let ghost used_before3 = used@;
    let f3 = faculty_with_majors("法学部", &names3, &mut used);
    proof {
        assert(names_of(names3@) =~= seq!["法学科"@]);
    }
    res.push(f3);
    proof {
        assert(faculty_views(res@) =~= before3.push(f3@));
        lemma_add_faculty_with_fresh_majors(before3, used_before3, f3@, used@);
    }
    let names4: [&str; 1] = ["経済学科"];
    let ghost before4 = faculty_views(res@);
    let ghost used_before4 = used@;
    let f4 = faculty_with_majors("経済学部", &names4, &mut used);
    proof {
        assert(names_of(names4@) =~= seq!["経済学科"@]);
    }
    res.push(f4);
    proof {
        assert(faculty_views(res@) =~= before4.push(f4@));
        lemma_add_faculty_with_fresh_majors(before4, used_before4, f4@, used@);
    }
    let names5: [&str; 6] = ["共通", "数学科", "物理学科", "化学科", "生物学科", "地球科学科"];
    let ghost before5 = faculty_views(res@);
    let ghost used_before5 = used@;
    let f5 = faculty_with_majors("理学部", &names5, &mut used);
    proof {
        assert(names_of(names5@) =~= seq!["共通"@, "数学科"@, "物理学科"@, "化学科"@, "生物学科"@, "地球科学科"@]);
    }
    res.push(f5);
    proof {
        assert(faculty_views(res@) =~= before5.push(f5@));
        lemma_add_faculty_with_fresh_majors(before5, used_before5, f5@, used@);
    }
    let names6: [&str; 4] = ["医学科", "保健 - 看護", "保健 - 放射線", "保健 - 検査技術"];
    let ghost before6 = faculty_views(res@);
    let ghost used_before6 = used@;
    let f6 = faculty_with_majors("医学部", &names6, &mut used);
    proof {
        assert(names_of(names6@) =~= seq!["医学科"@, "保健 - 看護"@, "保健 - 放射線"@, "保健 - 検査技術"@]);
    }
    res.push(f6);
    proof {
        assert(faculty_views(res@) =~= before6.push(f6@));
        lemma_add_faculty_with_fresh_majors(before6, used_before6, f6@, used@);
    }
    let names7: [&str; 2] = ["薬学科", "創薬科学科"];
    let ghost before7 = faculty_views(res@);
    let ghost used_before7 = used@;
    let f7 = faculty_with_majors("歯学部", &names7, &mut used);
    proof {
        assert(names_of(names7@) =~= seq!["薬学科"@, "創薬科学科"@]);
    }
    res.push(f7);
    proof {
        assert(faculty_views(res@) =~= before7.push(f7@));
        lemma_add_faculty_with_fresh_majors(before7, used_before7, f7@, used@);
    }
    let names8: [&str; 15] = ["共通", "機械システム共通", "機械システム - 機械", "機械システム - 知能", "環境社会共通", "環境社会 - 都市", "環境社会 - 環境", "情電数学共通", "情電数学 - IT", "情電数学 - NE", "情電数学 - EE", "情電数学 - DS", "化学生命共通", "化学生命 - 応用化学", "化学生命 - 生命工学"];
    let ghost before8 = faculty_views(res@);
    let ghost used_before8 = used@;
    let f8 = faculty_with_majors("工学部", &names8, &mut used);
    proof {
        assert(names_of(names8@) =~= seq!["共通"@, "機械システム共通"@, "機械システム - 機械"@, "機械システム - 知能"@, "環境社会共通"@, "環境社会 - 都市"@, "環境社会 - 環境"@, "情電数学共通"@, "情電数学 - IT"@, "情電数学 - NE"@, "情電数学 - EE"@, "情電数学 - DS"@, "化学生命共通"@, "化学生命 - 応用化学"@, "化学生命 - 生命工学"@]);
    }
    res.push(f8);
    proof {
        assert(faculty_views(res@) =~= before8.push(f8@));
        lemma_add_faculty_with_fresh_majors(before8, used_before8, f8@, used@);
    }
    let names9: [&str; 1] = ["農学科"];
    let ghost before9 = faculty_views(res@);
    let ghost used_before9 = used@;
    let f9 = faculty_with_majors("農学部", &names9, &mut used);
    proof {
        assert(names_of(names9@) =~= seq!["農学科"@]);
    }
    res.push(f9);
    proof {
        assert(faculty_views(res@) =~= before9.push(f9@));
        lemma_add_faculty_with_fresh_majors(before9, used_before9, f9@, used@);
    }
    let names10: [&str; 1] = ["GDP"];
    let ghost before10 = faculty_views(res@);
    let ghost used_before10 = used@;
    let f10 = faculty_with_majors("GDP", &names10, &mut used);
    proof {
        assert(names_of(names10@) =~= seq!["GDP"@]);
    }
    res.push(f10);
    proof {
        assert(faculty_views(res@) =~= before10.push(f10@));
        lemma_add_faculty_with_fresh_majors(before10, used_before10, f10@, used@);
    }
    proof {
        let views = faculty_views(res@);
        assert(views =~= seq![f0@, f1@, f2@, f3@, f4@, f5@, f6@, f7@, f8@, f9@, f10@]);
        assert(views.len() == example_catalog().len());
    }
    res
}

} // verus!
