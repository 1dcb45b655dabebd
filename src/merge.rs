use vstd::prelude::*;

verus! {

/// No two entries share a name.
pub open spec fn unique_names<T>(s: Seq<(String, T)>) -> bool {
    forall|i: int, j: int| 0 <= i < j < s.len() ==> s[i].0@ != s[j].0@
}

/// The value of the last entry named `k`, if any.
pub open spec fn latest<T>(s: Seq<(String, T)>, k: Seq<char>) -> Option<T>
    decreases s.len(),
{
    if s.len() == 0 {
        None
    } else if s.last().0@ == k {
        Some(s.last().1)
    } else {
        latest(s.drop_last(), k)
    }
}

/// The value that `k` has once the files are loaded in order, a later file
/// replacing what an earlier one defined.
pub open spec fn latest_in_files<T>(files: Seq<Seq<(String, T)>>, k: Seq<char>) -> Option<T>
    decreases files.len(),
{
    if files.len() == 0 {
        None
    } else {
        match latest(files.last(), k) {
            Some(v) => Some(v),
            None => latest_in_files(files.drop_last(), k),
        }
    }
}

/// Some entry of `s` is named `k`.
pub open spec fn defines<T>(s: Seq<(String, T)>, k: Seq<char>) -> bool {
    exists|i: int| 0 <= i < s.len() && (#[trigger] s[i]).0@ == k
}

pub proof fn lemma_latest_some<T>(s: Seq<(String, T)>, k: Seq<char>)
    ensures
        latest(s, k) is Some <==> defines(s, k),
    decreases s.len(),
{
    if s.len() > 0 {
        let d = s.drop_last();
        lemma_latest_some(d, k);
        if defines(d, k) {
            let i = choose|i: int| 0 <= i < d.len() && (#[trigger] d[i]).0@ == k;
            assert(s[i] == d[i]);
        }
        if defines(s, k) && s.last().0@ != k {
            let i = choose|i: int| 0 <= i < s.len() && (#[trigger] s[i]).0@ == k;
            assert(d[i] == s[i]);
        }
    }
}

pub open spec fn files_view<T>(files: Seq<Vec<(String, T)>>) -> Seq<Seq<(String, T)>> {
    files.map_values(|f: Vec<(String, T)>| f@)
}

proof fn lemma_latest_at<T>(s: Seq<(String, T)>, i: int)
    requires
        unique_names(s),
        0 <= i < s.len(),
    ensures
        latest(s, s[i].0@) == Some(s[i].1),
    decreases s.len(),
{
    if i != s.len() - 1 {
        assert(s.drop_last()[i] == s[i]);
        lemma_latest_at(s.drop_last(), i);
    }
}

proof fn lemma_latest_absent<T>(s: Seq<(String, T)>, k: Seq<char>)
    requires
        forall|i: int| 0 <= i < s.len() ==> s[i].0@ != k,
    ensures
        latest(s, k) is None,
    decreases s.len(),
{
    if s.len() > 0 {
        lemma_latest_absent(s.drop_last(), k);
    }
}

/// Two sequences with unique names and the same entries by name.
proof fn lemma_latest_agree<T>(a: Seq<(String, T)>, b: Seq<(String, T)>, k: Seq<char>)
    requires
        unique_names(a),
        unique_names(b),
        forall|i: int| 0 <= i < a.len() && a[i].0@ == k ==> exists|j: int| 0 <= j < b.len() && b[j] == a[i],
        forall|j: int| 0 <= j < b.len() && b[j].0@ == k ==> exists|i: int| 0 <= i < a.len() && a[i] == b[j],
    ensures
        latest(a, k) == latest(b, k),
{
    if exists|i: int| 0 <= i < a.len() && a[i].0@ == k {
        let i = choose|i: int| 0 <= i < a.len() && a[i].0@ == k;
        let j = choose|j: int| 0 <= j < b.len() && b[j] == a[i];
        lemma_latest_at(a, i);
        lemma_latest_at(b, j);
    } else {
        lemma_latest_absent(a, k);
        assert forall|j: int| 0 <= j < b.len() implies b[j].0@ != k by {
            if b[j].0@ == k {
                let i = choose|i: int| 0 <= i < a.len() && a[i] == b[j];
            }
        }
        lemma_latest_absent(b, k);
    }
}

fn position_of<T>(acc: &Vec<(String, T)>, name: &String) -> (r: Option<usize>)
    ensures
        match r {
            Some(i) => i < acc@.len() && acc@[i as int].0@ == name@,
            None => forall|i: int| 0 <= i < acc@.len() ==> acc@[i].0@ != name@,
        },
{
    let mut i: usize = 0;
    while i < acc.len()
        invariant
            i <= acc@.len(),
            forall|j: int| 0 <= j < i ==> acc@[j].0@ != name@,
        decreases acc@.len() - i,
    {
        if acc[i].0 == *name {
            return Some(i);
        }
        i = i + 1;
    }
    None
}

/// Adds an entry, replacing the one of the same name if there is one.
fn upsert<T>(acc: &mut Vec<(String, T)>, entry: (String, T))
    requires
        unique_names(old(acc)@),
    ensures
        unique_names(final(acc)@),
        forall|k: Seq<char>|
            #[trigger] latest(final(acc)@, k) == if k == entry.0@ {
                Some(entry.1)
            } else {
                latest(old(acc)@, k)
            },
{
    let ghost before = acc@;
    let ghost e = entry;
    match position_of(acc, &entry.0) {
        Some(i) => {
            acc.set(i, entry);
            proof {
                let after = acc@;
                assert forall|k: Seq<char>| #[trigger]
                    latest(after, k) == if k == e.0@ {
                        Some(e.1)
                    } else {
                        latest(before, k)
                    } by {
                    if k == e.0@ {
                        lemma_latest_at(after, i as int);
                    } else {
                        assert forall|j: int| 0 <= j < before.len() && before[j].0@ == k implies exists|m: int|
                            0 <= m < after.len() && after[m] == before[j] by {
                            assert(after[j] == before[j]);
                        }
                        assert forall|m: int| 0 <= m < after.len() && after[m].0@ == k implies exists|j: int|
                            0 <= j < before.len() && before[j] == after[m] by {
                            assert(before[m] == after[m]);
                        }
                        lemma_latest_agree(before, after, k);
                    }
                }
            }
        },
        None => {
            acc.push(entry);
            proof {
                let after = acc@;
                assert(after.drop_last() =~= before);
            }
        },
    }
}

/// Merges the tensors of several files into one set, in which each name
/// stands once; where several files define a name, the last of them wins.
pub fn merge_last_wins<T>(files: Vec<Vec<(String, T)>>) -> (r: Vec<(String, T)>)
    ensures
        unique_names(r@),
        forall|k: Seq<char>| #[trigger] latest(r@, k) == latest_in_files(files_view(files@), k),
{
    let ghost all = files_view(files@);
    let mut acc: Vec<(String, T)> = Vec::new();
    let mut files = files;
    let ghost mut done: Seq<Seq<(String, T)>> = Seq::empty();
    while files.len() > 0
        invariant
            unique_names(acc@),
            done + files_view(files@) == all,
            forall|k: Seq<char>| #[trigger] latest(acc@, k) == latest_in_files(done, k),
        decreases files@.len(),
    {
        let ghost rest = files@;
        let mut file = files.remove(0);
        let ghost file_seq = file@;
        let ghost mut consumed: Seq<(String, T)> = Seq::empty();
        let ghost acc0 = acc@;
        while file.len() > 0
            invariant
                unique_names(acc@),
                consumed + file@ == file_seq,
                forall|k: Seq<char>| #[trigger] latest(acc@, k) == match latest(consumed, k) {
                    Some(v) => Some(v),
                    None => latest(acc0, k),
                },
            decreases file@.len(),
        {
            let entry = file.remove(0);
            let ghost e = entry;
            upsert(&mut acc, entry);
            proof {
                let c2 = consumed.push(e);
                assert(c2.drop_last() =~= consumed);
                consumed = c2;
            }
        }
        proof {
            assert(consumed =~= file_seq);
            let d2 = done.push(file_seq);
            assert(d2.drop_last() =~= done);
            assert(files_view(rest) =~= seq![file_seq] + files_view(files@));
            assert(d2 + files_view(files@) =~= done + files_view(rest));
            done = d2;
        }
    }
    proof {
        assert(done =~= all);
    }
    acc
}

} // verus!
