//! The test cases of a problem, as they are found among the files of its
//! directory: each input file is paired with the output file that carries
//! the same number.

use crate::model::problem::TestCase;
use crate::text::{chars_of, parse_i64, read_i64};
use vstd::prelude::*;

verus! {

/// A file of a directory: its name, its size in bytes, and whether it is a
/// directory itself.
#[derive(Debug)]
pub struct FileEntry {
    pub name: String,
    pub size: u64,
    pub is_dir: bool,
}

/// Whether a character is numeric, as `char::is_numeric` says.
pub uninterp spec fn numeric(c: char) -> bool;

/// `char::is_numeric`: whether a character has one of the Unicode general
/// categories for numbers. The result is named, not spelled out.
#[verifier::external_body]
fn is_numeric(c: char) -> (b: bool)
    ensures
        b == numeric(c),
{
    c.is_numeric()
}

/// The position of the last dot of a name; -1 where it has none.
pub open spec fn last_dot(name: Seq<char>) -> int
    decreases name.len(),
{
    if name.len() == 0 {
        -1
    } else if name.last() == '.' {
        name.len() - 1
    } else {
        last_dot(name.drop_last())
    }
}

/// Where the trailing number of a stem begins: behind its last character
/// that is not numeric.
pub open spec fn number_start(stem: Seq<char>) -> int
    decreases stem.len(),
{
    if stem.len() == 0 {
        0
    } else if !numeric(stem.last()) {
        stem.len() as int
    } else {
        number_start(stem.drop_last())
    }
}

/// The part of a name before its last dot; nothing where it has no dot.
pub open spec fn stem_of(name: Seq<char>) -> Seq<char> {
    if last_dot(name) < 0 {
        Seq::empty()
    } else {
        name.take(last_dot(name))
    }
}

/// The number of a file: what stands between the last character of its
/// stem that is not numeric and its last dot, read as a decimal; 0 where
/// that is no number of 32 bits.
pub open spec fn case_number(name: Seq<char>) -> i32 {
    let stem = stem_of(name);
    match parse_i64(stem.skip(number_start(stem))) {
        Some(v) => if i32::MIN <= v <= i32::MAX {
            v as i32
        } else {
            0
        },
        None => 0,
    }
}

/// Whether a file is an input: whether its name ends in `.in` behind a
/// stem that is not empty.
pub open spec fn is_input(name: Seq<char>) -> bool {
    last_dot(name) > 0 && name.skip(last_dot(name) + 1) == "in"@
}

/// Whether the number of a name can be cut out: the character before it,
/// where there is one, takes one byte.
pub open spec fn cuttable(name: Seq<char>) -> bool {
    let stem = stem_of(name);
    number_start(stem) > 0 ==> (stem[number_start(stem) - 1] as u32) < 128
}

/// What a file is to the pairing.
#[derive(Debug, Clone, Copy, PartialEq, Eq, Structural)]
pub struct Role {
    pub number: i32,
    pub input: bool,
}

fn find_last_dot(chars: &Vec<char>) -> (r: Option<usize>)
    ensures
        match r {
            Some(i) => i == last_dot(chars@) && i < chars.len(),
            None => last_dot(chars@) == -1,
        },
{
    let mut i: usize = chars.len();
    assert(chars@.take(i as int) =~= chars@);
    while i > 0
        invariant
            i <= chars.len(),
            last_dot(chars@) == last_dot(chars@.take(i as int)),
        decreases i,
    {
        proof {
            assert(chars@.take(i as int).drop_last() =~= chars@.take(i - 1));
            assert(chars@.take(i as int).last() == chars@[i - 1]);
        }
        if chars[i - 1] == '.' {
            return Some(i - 1);
        }
        i -= 1;
    }
    None
}

/// The number of a file and whether it is an input, and whether its
/// number can be cut out.
pub fn role_of(name: &str) -> (r: (Role, bool))
    ensures
        r.0.number == case_number(name@),
        r.0.input == is_input(name@),
        r.1 == cuttable(name@),
{
    let chars = chars_of(name);
    proof {
        assert(chars@.take(chars@.len() as int) =~= chars@);
        reveal_strlit("in");
    }
    let dot = find_last_dot(&chars);
    let end: usize = match dot {
        Some(i) => i,
        None => 0,
    };
    let input = match dot {
        Some(i) => i > 0 && chars.len() - i == 3 && chars[i + 1] == 'i' && chars[i + 2] == 'n',
        None => false,
    };
    proof {
        if dot is Some {
            let rest = name@.skip(end + 1);
            if input {
                assert(rest =~= "in"@);
            }
            if rest == "in"@ {
                assert(rest.len() == 2);
                assert(rest[0] == 'i' && rest[1] == 'n');
                assert(rest[0] == chars@[end + 1] && rest[1] == chars@[end + 2]);
            }
        }
    }
    let mut stem: Vec<char> = Vec::new();
    let mut k: usize = 0;
    while k < end
        invariant
            k <= end <= chars.len(),
            stem@ == chars@.take(k as int),
        decreases end - k,
    {
        stem.push(chars[k]);
        k += 1;
        assert(stem@ =~= chars@.take(k as int));
    }
    assert(stem@ =~= stem_of(name@));
    let mut start: usize = end;
    assert(stem@.take(start as int) =~= stem@);
    while start > 0 && is_numeric(stem[start - 1])
        invariant
            start <= end,
            end == stem.len(),
            number_start(stem@) == number_start(stem@.take(start as int)),
        decreases start,
    {
        proof {
            assert(stem@.take(start as int).drop_last() =~= stem@.take(start - 1));
            assert(stem@.take(start as int).last() == stem@[start - 1]);
        }
        start -= 1;
    }
    proof {
        assert(stem@.take(stem@.len() as int) =~= stem@);
        if start > 0 {
            assert(stem@.take(start as int).last() == stem@[start - 1]);
        }
        assert(number_start(stem@) == start);
    }
    let cut = start == 0 || (stem[start - 1] as u32) < 128;
    let number: i32 = match read_i64(&stem, start) {
        Some(v) => {
            if v >= -2147483648 && v <= 2147483647 {
                v as i32
            } else {
                0
            }
        },
        None => 0,
    };
    (Role { number, input }, cut)
}

/// A file as contracts see it.
pub struct FileView {
    pub name: Seq<char>,
    pub size: u64,
    pub is_dir: bool,
}

impl View for FileEntry {
    type V = FileView;

    open spec fn view(&self) -> FileView {
        FileView { name: self.name@, size: self.size, is_dir: self.is_dir }
    }
}

/// The views of a list of files.
pub open spec fn files_view(files: Seq<FileEntry>) -> Seq<FileView> {
    Seq::new(files.len(), |i: int| files[i]@)
}

/// Whether a file plays a role.
pub open spec fn plays(file: FileView, role: Role) -> bool {
    !file.is_dir && case_number(file.name) == role.number && is_input(file.name) == role.input
}

/// The position of the last file that plays a role; -1 where none does.
/// Of two files with the same role the later one counts.
pub open spec fn last_file(files: Seq<FileView>, role: Role) -> int
    decreases files.len(),
{
    if files.len() == 0 {
        -1
    } else if plays(files.last(), role) {
        files.len() - 1
    } else {
        last_file(files.drop_last(), role)
    }
}

/// Whether every file that is not a directory has a number that can be
/// cut out.
pub open spec fn pairable(files: Seq<FileView>) -> bool {
    forall|i: int| 0 <= i < files.len() && !(#[trigger] files[i]).is_dir ==> cuttable(files[i].name)
}

/// Whether every file that is not a directory has a number that can be
/// cut out.
pub fn can_pair(files: &Vec<FileEntry>) -> (b: bool)
    ensures
        b == pairable(files_view(files@)),
{
    let mut i: usize = 0;
    while i < files.len()
        invariant
            i <= files.len(),
            forall|k: int|
                0 <= k < i && !(#[trigger] files_view(files@)[k]).is_dir ==> cuttable(
                    files_view(files@)[k].name,
                ),
        decreases files.len() - i,
    {
        if !files[i].is_dir {
            let r = role_of(files[i].name.as_str());
            if !r.1 {
                assert(!files_view(files@)[i as int].is_dir);
                return false;
            }
        }
        i += 1;
    }
    true
}

/// A test case with the number that its files carry.
#[derive(Debug)]
pub struct Paired {
    pub number: i32,
    pub case: TestCase,
}

/// The files that carry one number.
struct Slot {
    number: i32,
    input: Option<usize>,
    output: Option<usize>,
}

spec fn slot_of(files: Seq<FileView>, number: i32) -> (int, int) {
    (
        last_file(files, Role { number, input: true }),
        last_file(files, Role { number, input: false }),
    )
}

spec fn index_of(at: Option<usize>) -> int {
    match at {
        Some(i) => i as int,
        None => -1,
    }
}

spec fn slots_hold(slots: Seq<Slot>, files: Seq<FileView>) -> bool {
    &&& forall|a: int, b: int| 0 <= a < b < slots.len() ==> slots[a].number < slots[b].number
    &&& forall|a: int|
        0 <= a < slots.len() ==> slot_of(files, (#[trigger] slots[a]).number) == (
            index_of(slots[a].input),
            index_of(slots[a].output),
        ) && (slots[a].input is Some || slots[a].output is Some)
    &&& forall|number: i32|
        #![trigger slot_of(files, number)]
        slot_of(files, number) != (-1int, -1int) ==> exists|a: int|
            0 <= a < slots.len() && (#[trigger] slots[a]).number == number
}

spec fn with_file(slot: Slot, input: bool, n: usize) -> Slot {
    if input {
        Slot { input: Some(n), ..slot }
    } else {
        Slot { output: Some(n), ..slot }
    }
}

spec fn empty_slot(number: i32) -> Slot {
    Slot { number, input: None, output: None }
}

proof fn lemma_last_file_bound(files: Seq<FileView>, role: Role)
    ensures
        -1 <= last_file(files, role) < files.len(),
        last_file(files, role) >= 0 ==> plays(files[last_file(files, role)], role),
    decreases files.len(),
{
    if files.len() > 0 && !plays(files.last(), role) {
        lemma_last_file_bound(files.drop_last(), role);
    }
}

proof fn lemma_directory(slots: Seq<Slot>, before: Seq<FileView>, file: FileView)
    requires
        slots_hold(slots, before),
        file.is_dir,
    ensures
        slots_hold(slots, before.push(file)),
{
    let after = before.push(file);
    assert(after.drop_last() =~= before);
    assert forall|number: i32| slot_of(after, number) == slot_of(before, number) by {}
    assert forall|number: i32|
        #![trigger slot_of(after, number)]
        slot_of(after, number) != (-1int, -1int) implies exists|a: int|
        0 <= a < slots.len() && (#[trigger] slots[a]).number == number by {
        assert(slot_of(before, number) != (-1int, -1int));
    }
}

proof fn lemma_known_number(
    slots: Seq<Slot>,
    before: Seq<FileView>,
    file: FileView,
    role: Role,
    at: int,
)
    requires
        slots_hold(slots, before),
        plays(file, role),
        0 <= at < slots.len(),
        slots[at].number == role.number,
        before.len() <= usize::MAX,
    ensures
        slots_hold(
            slots.update(at, with_file(slots[at], role.input, before.len() as usize)),
            before.push(file),
        ),
{
    let after = before.push(file);
    let n = before.len() as usize;
    let new = slots.update(at, with_file(slots[at], role.input, n));
    assert(after.drop_last() =~= before);
    assert forall|a: int| 0 <= a < new.len() implies slot_of(after, (#[trigger] new[a]).number) == (
        index_of(new[a].input),
        index_of(new[a].output),
    ) && (new[a].input is Some || new[a].output is Some) by {
        assert(new[a].number == slots[a].number);
        assert(slot_of(before, slots[a].number) == (
            index_of(slots[a].input),
            index_of(slots[a].output),
        ));
        if a != at {
            assert(slots[a].number != role.number) by {
                if a < at {
                    assert(slots[a].number < slots[at].number);
                } else {
                    assert(slots[at].number < slots[a].number);
                }
            }
        }
    }
    assert forall|number: i32|
        #![trigger slot_of(after, number)]
        slot_of(after, number) != (-1int, -1int) implies exists|a: int|
        0 <= a < new.len() && (#[trigger] new[a]).number == number by {
        if number == role.number {
            assert(new[at].number == number);
        } else {
            assert(slot_of(before, number) == slot_of(after, number));
            let a = choose|a: int| 0 <= a < slots.len() && (#[trigger] slots[a]).number == number;
            assert(new[a].number == number);
        }
    }
    assert forall|a: int, b: int| 0 <= a < b < new.len() implies new[a].number < new[b].number by {
        assert(new[a].number == slots[a].number);
        assert(new[b].number == slots[b].number);
    }
}

proof fn lemma_new_number(
    slots: Seq<Slot>,
    before: Seq<FileView>,
    file: FileView,
    role: Role,
    at: int,
)
    requires
        slots_hold(slots, before),
        plays(file, role),
        0 <= at <= slots.len(),
        forall|a: int| 0 <= a < at ==> (#[trigger] slots[a]).number < role.number,
        at < slots.len() ==> role.number < slots[at].number,
        before.len() <= usize::MAX,
    ensures
        slots_hold(
            slots.insert(at, with_file(empty_slot(role.number), role.input, before.len() as usize)),
            before.push(file),
        ),
{
    let after = before.push(file);
    let n = before.len() as usize;
    let new = slots.insert(at, with_file(empty_slot(role.number), role.input, n));
    assert(after.drop_last() =~= before);
    assert forall|a: int| at <= a < slots.len() implies role.number < (#[trigger] slots[a]).number by {
        if a > at {
            assert(slots[at].number < slots[a].number);
        }
    }
    if slot_of(before, role.number) != (-1int, -1int) {
        let a = choose|a: int| 0 <= a < slots.len() && (#[trigger] slots[a]).number == role.number;
        assert(false);
    }
    assert forall|a: int, b: int| 0 <= a < b < new.len() implies new[a].number < new[b].number by {
        if a < at {
            assert(new[a] == slots[a]);
        } else if a > at {
            assert(new[a] == slots[a - 1]);
        }
        if b < at {
            assert(new[b] == slots[b]);
        } else if b > at {
            assert(new[b] == slots[b - 1]);
        }
        if a != at && b != at {
            let x = if a < at {
                a
            } else {
                a - 1
            };
            let y = if b < at {
                b
            } else {
                b - 1
            };
            assert(slots[x].number < slots[y].number);
        }
    }
    assert forall|a: int| 0 <= a < new.len() implies slot_of(after, (#[trigger] new[a]).number) == (
        index_of(new[a].input),
        index_of(new[a].output),
    ) && (new[a].input is Some || new[a].output is Some) by {
        if a != at {
            let x = if a < at {
                a
            } else {
                a - 1
            };
            assert(new[a] == slots[x]);
            assert(slot_of(before, slots[x].number) == (
                index_of(slots[x].input),
                index_of(slots[x].output),
            ));
            assert(slots[x].number != role.number);
        }
    }
    assert forall|number: i32|
        #![trigger slot_of(after, number)]
        slot_of(after, number) != (-1int, -1int) implies exists|a: int|
        0 <= a < new.len() && (#[trigger] new[a]).number == number by {
        if number == role.number {
            assert(new[at].number == number);
        } else {
            assert(slot_of(before, number) == slot_of(after, number));
            let a = choose|a: int| 0 <= a < slots.len() && (#[trigger] slots[a]).number == number;
            if a < at {
                assert(new[a] == slots[a]);
            } else {
                assert(new[a + 1] == slots[a]);
            }
        }
    }
}

/// The files by the number they carry, the numbers rising.
fn sort_files(files: &Vec<FileEntry>) -> (slots: Vec<Slot>)
    ensures
        slots_hold(slots@, files_view(files@)),
        slots.len() <= files.len(),
{
    let ghost all = files_view(files@);
    let mut slots: Vec<Slot> = Vec::new();
    let mut n: usize = 0;
    assert(slots_hold(slots@, all.take(0))) by {
        assert forall|number: i32| slot_of(all.take(0), number) == (-1int, -1int) by {}
    }
    while n < files.len()
        invariant
            n <= files.len(),
            all == files_view(files@),
            slots.len() <= n,
            slots_hold(slots@, all.take(n as int)),
        decreases files.len() - n,
    {
        let ghost before = all.take(n as int);
        let ghost old_slots = slots@;
        proof {
            assert(all.take(n + 1) =~= before.push(all[n as int]));
        }
        if !files[n].is_dir {
            let role = role_of(files[n].name.as_str()).0;
            assert(plays(all[n as int], role));
            let mut at: usize = 0;
            while at < slots.len() && slots[at].number < role.number
                invariant
                    at <= slots.len(),
                    forall|a: int| 0 <= a < at ==> (#[trigger] slots@[a]).number < role.number,
                decreases slots.len() - at,
            {
                at += 1;
            }
            if at < slots.len() && slots[at].number == role.number {
                if role.input {
                    slots[at].input = Some(n);
                } else {
                    slots[at].output = Some(n);
                }
                proof {
                    assert(slots@ =~= old_slots.update(
                        at as int,
                        with_file(old_slots[at as int], role.input, n),
                    ));
                    lemma_known_number(old_slots, before, all[n as int], role, at as int);
                }
            } else {
                let slot = if role.input {
                    Slot { number: role.number, input: Some(n), output: None }
                } else {
                    Slot { number: role.number, input: None, output: Some(n) }
                };
                slots.insert(at, slot);
                proof {
                    assert(slot == with_file(empty_slot(role.number), role.input, n));
                    lemma_new_number(old_slots, before, all[n as int], role, at as int);
                }
            }
        } else {
            proof {
                lemma_directory(old_slots, before, all[n as int]);
            }
        }
        n += 1;
    }
    assert(all.take(files.len() as int) =~= all);
    slots
}

/// Whether `cases` are the test cases of `files`: each case pairs the last
/// input with the last output of its number and is counted from 1, the
/// numbers rise, and no number that has both an input and an output is
/// left out.
pub open spec fn pairs(files: Seq<FileEntry>, cases: Seq<Paired>) -> bool {
    &&& forall|k: int|
        0 <= k < cases.len() ==> {
            let input = last_file(
                files_view(files),
                Role { number: (#[trigger] cases[k]).number, input: true },
            );
            let output = last_file(files_view(files), Role { number: cases[k].number, input: false });
            &&& 0 <= input < files.len()
            &&& 0 <= output < files.len()
            &&& cases[k].case.id == k + 1
            &&& cases[k].case.input_name@ == files[input].name@
            &&& cases[k].case.input_size == files[input].size as i32
            &&& cases[k].case.output_name@ == files[output].name@
            &&& cases[k].case.output_size == files[output].size as i32
            &&& cases[k].case.max_output_size is None
        }
    &&& forall|k: int, l: int| 0 <= k < l < cases.len() ==> cases[k].number < cases[l].number
    &&& forall|number: i32|
        last_file(files_view(files), Role { number, input: true }) >= 0 && last_file(
            files_view(files),
            Role { number, input: false },
        ) >= 0 ==> exists|k: int| 0 <= k < cases.len() && (#[trigger] cases[k]).number == number
}

/// Pairs the input files with the output files. The directories among the
/// files are left out. A file is an input if its name ends in `.in`, an
/// output otherwise; of two inputs, or two outputs, with the same number
/// the later one counts. Each number that has both gives one test case;
/// the cases come by rising number and are counted from 1.
pub fn make_test_case_info(files: &Vec<FileEntry>) -> (cases: Vec<Paired>)
    requires
        files.len() < i32::MAX,
        pairable(files_view(files@)),
    ensures
        pairs(files@, cases@),
{
    let ghost all = files_view(files@);
    let slots = sort_files(files);
    let mut cases: Vec<Paired> = Vec::new();
    let mut a: usize = 0;
    while a < slots.len()
        invariant
            a <= slots.len(),
            slots.len() <= files.len(),
            files.len() < i32::MAX,
            all == files_view(files@),
            slots_hold(slots@, all),
            cases.len() <= a,
            forall|k: int|
                0 <= k < cases.len() ==> {
                    let input = last_file(
                        all,
                        Role { number: (#[trigger] cases@[k]).number, input: true },
                    );
                    let output = last_file(all, Role { number: cases@[k].number, input: false });
                    &&& 0 <= input < files.len()
                    &&& 0 <= output < files.len()
                    &&& cases@[k].case.id == k + 1
                    &&& cases@[k].case.input_name@ == files@[input].name@
                    &&& cases@[k].case.input_size == files@[input].size as i32
                    &&& cases@[k].case.output_name@ == files@[output].name@
                    &&& cases@[k].case.output_size == files@[output].size as i32
                    &&& cases@[k].case.max_output_size is None
                },
            forall|k: int, l: int| 0 <= k < l < cases.len() ==> cases@[k].number < cases@[l].number,
            forall|k: int|
                0 <= k < cases.len() && a < slots.len() ==> (#[trigger] cases@[k]).number
                    < slots@[a as int].number,
            forall|b: int|
                0 <= b < a && (#[trigger] slots@[b]).input is Some && slots@[b].output is Some
                    ==> exists|k: int|
                    0 <= k < cases.len() && (#[trigger] cases@[k]).number == slots@[b].number,
        decreases slots.len() - a,
    {
        let ghost done = cases@;
        let number = slots[a].number;
        proof {
            assert(slot_of(all, slots@[a as int].number) == (
                index_of(slots@[a as int].input),
                index_of(slots@[a as int].output),
            ));
            lemma_last_file_bound(all, Role { number, input: true });
            lemma_last_file_bound(all, Role { number, input: false });
            if a + 1 < slots.len() {
                assert(slots@[a as int].number < slots@[a + 1].number);
            }
        }
        match (slots[a].input, slots[a].output) {
            (Some(i), Some(o)) => {
                let count: i32 = (cases.len() + 1) as i32;
                cases.push(
                    Paired {
                        number,
                        case: TestCase {
                            id: count,
                            input_name: files[i].name.clone(),
                            input_size: #[verifier::truncate] (files[i].size as i32),
                            output_name: files[o].name.clone(),
                            output_size: #[verifier::truncate] (files[o].size as i32),
                            max_output_size: None,
                        },
                    },
                );
                proof {
                    assert forall|k: int| 0 <= k < cases@.len() - 1 implies cases@[k] == done[k] by {}
                    assert(cases@[cases@.len() - 1].number == number);
                    assert forall|b: int|
                        0 <= b < a + 1 && (#[trigger] slots@[b]).input is Some && slots@[b].output
                            is Some implies exists|k: int|
                        0 <= k < cases@.len() && (#[trigger] cases@[k]).number
                            == slots@[b].number by {
                        if b < a {
                            let k = choose|k: int|
                                0 <= k < done.len() && (#[trigger] done[k]).number
                                    == slots@[b].number;
                            assert(cases@[k].number == slots@[b].number);
                        } else {
                            assert(cases@[cases@.len() - 1].number == slots@[b].number);
                        }
                    }
                }
            },
            _ => {},
        }
        a += 1;
    }
    proof {
        assert forall|number: i32|
            last_file(all, Role { number, input: true }) >= 0 && last_file(
                all,
                Role { number, input: false },
            ) >= 0 implies exists|k: int|
            0 <= k < cases@.len() && (#[trigger] cases@[k]).number == number by {
            assert(slot_of(all, number) != (-1int, -1int));
            let b = choose|b: int| 0 <= b < slots@.len() && (#[trigger] slots@[b]).number == number;
            assert(slot_of(all, slots@[b].number) == (
                index_of(slots@[b].input),
                index_of(slots@[b].output),
            ));
        }
    }
    cases
}

/// Pairs the input files with the output files where that can be done:
/// where the files are fewer than the numbers of 32 bits and the number of
/// each can be cut out of its name.
pub fn pair_files(files: &Vec<FileEntry>) -> (r: Option<Vec<Paired>>)
    ensures
        r is Some == (files.len() < i32::MAX && pairable(files_view(files@))),
        r is Some ==> pairs(files@, r.unwrap()@),
{
    if files.len() >= 2147483647 || !can_pair(files) {
        return None;
    }
    Some(make_test_case_info(files))
}

} // verus!
