//! Where a file goes: `<target>/<year>/<month>/<name>`, with the collision policy
//! applied to the names already present in the month's directory.
use crate::arguments::Collision;
use crate::timestamp::Timestamp;
use vstd::prelude::*;
use vstd::relations::injective_on;
use vstd::set_lib::*;

verus! {

/// The decimal digit for `d < 10`.
pub open spec fn digit_char(d: nat) -> char {
    if d == 0 {
        '0'
    } else if d == 1 {
        '1'
    } else if d == 2 {
        '2'
    } else if d == 3 {
        '3'
    } else if d == 4 {
        '4'
    } else if d == 5 {
        '5'
    } else if d == 6 {
        '6'
    } else if d == 7 {
        '7'
    } else if d == 8 {
        '8'
    } else {
        '9'
    }
}

/// A natural number in decimal, without leading zeros.
pub open spec fn decimal(n: nat) -> Seq<char>
    decreases n,
{
    if n < 10 {
        seq![digit_char(n)]
    } else {
        decimal(n / 10).push(digit_char(n % 10))
    }
}

/// The year as a directory name: its decimal form, never padded.
pub open spec fn year_text(y: int) -> Seq<char> {
    if y < 0 {
        seq!['-'] + decimal((-y) as nat)
    } else {
        decimal(y as nat)
    }
}

/// The month as a directory name: always two digits.
pub open spec fn month_text(m: nat) -> Seq<char> {
    seq![digit_char(m / 10), digit_char(m % 10)]
}

/// One more component at the end of a path.
pub open spec fn join(base: Seq<char>, part: Seq<char>) -> Seq<char> {
    if base.len() == 0 || base.last() == '/' {
        base + part
    } else {
        base + seq!['/'] + part
    }
}

/// The directory that files of the timestamp's month go to.
pub open spec fn month_dir(target: Seq<char>, t: Timestamp) -> Seq<char> {
    join(join(target, year_text(t.year as int)), month_text(t.month as nat))
}

/// The file name with copy index `n`: the name itself for 0, else `(n) name`.
pub open spec fn copy_name(name: Seq<char>, n: nat) -> Seq<char> {
    if n == 0 {
        name
    } else {
        seq!['('] + decimal(n) + seq![')', ' '] + name
    }
}

/// The destination with copy index `n`.
pub open spec fn candidate(target: Seq<char>, t: Timestamp, name: Seq<char>, n: nat) -> Seq<
    char,
> {
    join(month_dir(target, t), copy_name(name, n))
}

/// The names of a list of strings.
pub open spec fn names(v: Seq<String>) -> Seq<Seq<char>> {
    v.map_values(|s: String| s@)
}

/// The smallest copy index whose name is not among `taken`, searching from `n`.
pub open spec fn first_free_from(taken: Seq<Seq<char>>, name: Seq<char>, n: nat) -> nat
    decreases taken.len() + 1 - n,
{
    if n > taken.len() || !taken.contains(copy_name(name, n)) {
        n
    } else {
        first_free_from(taken, name, n + 1)
    }
}

/// Why no destination was given.
#[derive(Debug, Clone, PartialEq, Eq)]
pub enum PlaceError {
    /// The destination is taken and the policy is to skip; it holds the path.
    AlreadyExists(String),
}

/// What the path resolver decides, given the names already present in the
/// month's directory.
pub open spec fn placement(
    target: Seq<char>,
    t: Timestamp,
    name: Seq<char>,
    policy: Collision,
    taken: Seq<Seq<char>>,
) -> Result<Seq<char>, Seq<char>> {
    if !taken.contains(name) {
        Ok(candidate(target, t, name, 0))
    } else {
        match policy {
            Collision::Skip => Err(candidate(target, t, name, 0)),
            Collision::Overwrite => Ok(candidate(target, t, name, 0)),
            Collision::Rename => Ok(candidate(target, t, name, first_free_from(taken, name, 0))),
        }
    }
}

proof fn lemma_decimal_len(n: nat)
    ensures
        decimal(n).len() >= 1,
    decreases n,
{
    if n >= 10 {
        lemma_decimal_len(n / 10);
    }
}

proof fn lemma_digit_injective(a: nat, b: nat)
    requires
        a < 10,
        b < 10,
        digit_char(a) == digit_char(b),
    ensures
        a == b,
{
}

proof fn lemma_decimal_injective(a: nat, b: nat)
    requires
        decimal(a) == decimal(b),
    ensures
        a == b,
    decreases a + b,
{
    lemma_decimal_len(a / 10);
    lemma_decimal_len(b / 10);
    if a < 10 && b < 10 {
        assert(decimal(a) == seq![digit_char(a)]);
        assert(decimal(b) == seq![digit_char(b)]);
        assert(decimal(a)[0] == digit_char(a));
        assert(decimal(b)[0] == digit_char(b));
        lemma_digit_injective(a, b);
    } else if a < 10 {
        assert(decimal(b).len() >= 2);
    } else if b < 10 {
        assert(decimal(a).len() >= 2);
    } else {
        let da = decimal(a);
        let db = decimal(b);
        assert(da.last() == db.last());
        lemma_digit_injective(a % 10, b % 10);
        assert(da.drop_last() == decimal(a / 10));
        assert(db.drop_last() == decimal(b / 10));
        lemma_decimal_injective(a / 10, b / 10);
    }
}

proof fn lemma_copy_name_injective(name: Seq<char>, a: nat, b: nat)
    requires
        copy_name(name, a) == copy_name(name, b),
    ensures
        a == b,
{
    lemma_decimal_len(a);
    lemma_decimal_len(b);
    if a > 0 && b > 0 {
        let da = decimal(a);
        let db = decimal(b);
        let sa = copy_name(name, a);
        assert(da.len() == db.len()) by {
            assert(sa.len() == da.len() + 3 + name.len());
        }
        assert(sa.subrange(1, 1 + da.len() as int) == da);
        assert(copy_name(name, b).subrange(1, 1 + db.len() as int) == db);
        lemma_decimal_injective(a, b);
    } else if a > 0 {
        assert(copy_name(name, a).len() > name.len());
    } else if b > 0 {
        assert(copy_name(name, b).len() > name.len());
    }
}

/// Not every copy index up to the number of taken names can be taken.
proof fn lemma_free_index_exists(taken: Seq<Seq<char>>, name: Seq<char>)
    ensures
        exists|i: nat| i <= taken.len() && !taken.contains(#[trigger] copy_name(name, i)),
{
    if forall|i: nat| i <= taken.len() ==> taken.contains(#[trigger] copy_name(name, i)) {
        let k = taken.len() as int;
        let xs = set_int_range(0, k + 1);
        let f = |i: int| copy_name(name, i as nat);
        let ys = xs.map(f);
        lemma_int_range(0, k + 1);
        assert(injective_on(f, xs)) by {
            assert forall|a: int, b: int|
                xs.contains(a) && xs.contains(b) && #[trigger] f(a) == #[trigger] f(b) implies a
                == b by {
                lemma_copy_name_injective(name, a as nat, b as nat);
            }
        }
        lemma_map_size(xs, ys, f);
        let ts = taken.to_set();
        assert(ys.subset_of(ts)) by {
            assert forall|p: Seq<char>| ys.contains(p) implies ts.contains(p) by {
                let i = choose|i: int| xs.contains(i) && f(i) == p;
                assert(taken.contains(copy_name(name, i as nat)));
            }
        }
        taken.lemma_cardinality_of_set();
        lemma_len_subset(ys, ts);
        assert(false);
    }
}

proof fn lemma_first_free_from(taken: Seq<Seq<char>>, name: Seq<char>, n: nat)
    requires
        n <= taken.len() + 1,
        forall|i: nat| i < n ==> taken.contains(#[trigger] copy_name(name, i)),
    ensures
        ({
            let r = first_free_from(taken, name, n);
            &&& n <= r <= taken.len()
            &&& !taken.contains(copy_name(name, r))
            &&& forall|i: nat| i < r ==> taken.contains(#[trigger] copy_name(name, i))
        }),
    decreases taken.len() + 1 - n,
{
    lemma_free_index_exists(taken, name);
    if n > taken.len() {
        let i = choose|i: nat| i <= taken.len() && !taken.contains(#[trigger] copy_name(name, i));
        assert(taken.contains(copy_name(name, i)));
    } else if taken.contains(copy_name(name, n)) {
        lemma_first_free_from(taken, name, n + 1);
    }
}

proof fn lemma_first_free_is(taken: Seq<Seq<char>>, name: Seq<char>, m: nat, n: nat)
    requires
        m <= n <= taken.len(),
        forall|i: nat| m <= i < n ==> taken.contains(#[trigger] copy_name(name, i)),
        !taken.contains(copy_name(name, n)),
    ensures
        first_free_from(taken, name, m) == n,
    decreases n - m,
{
    if m < n {
        assert(taken.contains(copy_name(name, m)));
        lemma_first_free_is(taken, name, m + 1, n);
    }
}

/// The month directory is `<target>/<year>/<month>`: a year that is not negative
/// in plain decimal, never padded; the month in exactly two digits, with a zero
/// in front below 10.
pub proof fn law_month_directory(target: Seq<char>, t: Timestamp)
    requires
        t.wf(),
    ensures
        month_dir(target, t) == join(
            join(target, year_text(t.year as int)),
            month_text(t.month as nat),
        ),
        t.year >= 0 ==> year_text(t.year as int) == decimal(t.year as nat),
        month_text(t.month as nat).len() == 2,
        t.month < 10 ==> month_text(t.month as nat) == seq!['0'] + decimal(t.month as nat),
        t.month >= 10 ==> month_text(t.month as nat) == decimal(t.month as nat),
{
    let m = t.month as nat;
    if m < 10 {
        assert(decimal(m) == seq![digit_char(m)]);
        assert(month_text(m) =~= seq!['0'] + decimal(m));
    } else {
        assert(decimal(m / 10) == seq![digit_char(m / 10)]);
        assert(month_text(m) =~= decimal(m));
    }
}

/// Under `Rename`, where copy indices `0..n` of the name are taken and index `n`
/// is free, the destination carries copy index `n`.
pub proof fn law_rename_first_free(
    target: Seq<char>,
    t: Timestamp,
    name: Seq<char>,
    taken: Seq<Seq<char>>,
    n: nat,
)
    requires
        forall|i: nat| i < n ==> taken.contains(#[trigger] copy_name(name, i)),
        !taken.contains(copy_name(name, n)),
    ensures
        placement(target, t, name, Collision::Rename, taken) == Ok::<Seq<char>, Seq<char>>(
            candidate(target, t, name, n),
        ),
{
    lemma_free_index_exists(taken, name);
    if n > taken.len() {
        let i = choose|i: nat| i <= taken.len() && !taken.contains(#[trigger] copy_name(name, i));
        assert(taken.contains(copy_name(name, i)));
    }
    if n > 0 {
        assert(taken.contains(copy_name(name, 0)));
    }
    lemma_first_free_is(taken, name, 0, n);
}

/// Under `Rename` the destination always has a copy index that is free, and
/// every smaller index is taken: no index is skipped.
pub proof fn law_rename_never_taken(
    target: Seq<char>,
    t: Timestamp,
    name: Seq<char>,
    taken: Seq<Seq<char>>,
)
    ensures
        exists|k: nat|
            placement(target, t, name, Collision::Rename, taken) == Ok::<Seq<char>, Seq<char>>(
                #[trigger] candidate(target, t, name, k),
            ) && !taken.contains(copy_name(name, k)) && forall|i: nat|
                i < k ==> taken.contains(#[trigger] copy_name(name, i)),
{
    if taken.contains(name) {
        lemma_first_free_from(taken, name, 0);
        let k = first_free_from(taken, name, 0);
        assert(placement(target, t, name, Collision::Rename, taken) == Ok::<Seq<char>, Seq<char>>(
            candidate(target, t, name, k),
        ));
    } else {
        assert(placement(target, t, name, Collision::Rename, taken) == Ok::<Seq<char>, Seq<char>>(
            candidate(target, t, name, 0),
        ));
    }
}

/// Under `Overwrite` the destination is the plain path, taken or not.
pub proof fn law_overwrite_same_path(
    target: Seq<char>,
    t: Timestamp,
    name: Seq<char>,
    taken: Seq<Seq<char>>,
)
    ensures
        placement(target, t, name, Collision::Overwrite, taken) == Ok::<Seq<char>, Seq<char>>(
            candidate(target, t, name, 0),
        ),
{
}

fn push_digit(s: &mut String, d: u64)
    requires
        d < 10,
    ensures
        final(s)@ == old(s)@.push(digit_char(d as nat)),
{
    let ghost s0 = s@;
    let lit = if d == 0 {
        "0"
    } else if d == 1 {
        "1"
    } else if d == 2 {
        "2"
    } else if d == 3 {
        "3"
    } else if d == 4 {
        "4"
    } else if d == 5 {
        "5"
    } else if d == 6 {
        "6"
    } else if d == 7 {
        "7"
    } else if d == 8 {
        "8"
    } else {
        "9"
    };
    proof {
        reveal_strlit("0");
        reveal_strlit("1");
        reveal_strlit("2");
        reveal_strlit("3");
        reveal_strlit("4");
        reveal_strlit("5");
        reveal_strlit("6");
        reveal_strlit("7");
        reveal_strlit("8");
        reveal_strlit("9");
        assert(lit@ == seq![digit_char(d as nat)]);
    }
    s.append(lit);
    assert(s@ =~= s0.push(digit_char(d as nat)));
}

fn push_decimal(s: &mut String, n: u64)
    ensures
        final(s)@ == old(s)@ + decimal(n as nat),
    decreases n,
{
    let ghost s0 = s@;
    if n >= 10 {
        push_decimal(s, n / 10);
    }
    push_digit(s, n % 10);
    assert(s@ =~= s0 + decimal(n as nat));
}

/// Appends one path component, with a separator where `base` does not end in one.
fn push_component(base: &mut String, part: &str)
    ensures
        final(base)@ == join(old(base)@, part@),
{
    let n = base.as_str().unicode_len();
    if n == 0 || base.as_str().get_char(n - 1) == '/' {
        base.append(part);
    } else {
        let ghost b0 = base@;
        proof {
            reveal_strlit("/");
        }
        base.append("/");
        base.append(part);
        assert(base@ =~= b0 + seq!['/'] + part@);
    }
}

/// The directory `<target>/<year>/<month>` for a timestamp: the year in decimal,
/// the month in two digits.
pub fn month_directory(target_dir: &str, ts: &Timestamp) -> (r: String)
    requires
        ts.wf(),
    ensures
        r@ == month_dir(target_dir@, *ts),
{
    let mut dir = String::from_str(target_dir);
    let mut year = String::new();
    if ts.year < 0 {
        proof {
            reveal_strlit("-");
        }
        year.append("-");
        push_decimal(&mut year, (-(ts.year as i64)) as u64);
    } else {
        push_decimal(&mut year, ts.year as u64);
    }
    assert(year@ =~= year_text(ts.year as int));
    push_component(&mut dir, year.as_str());
    let mut month = String::new();
    push_digit(&mut month, (ts.month / 10) as u64);
    push_digit(&mut month, (ts.month % 10) as u64);
    assert(month@ =~= month_text(ts.month as nat));
    push_component(&mut dir, month.as_str());
    dir
}

/// The file name with copy index `n`: `(n) name`, or the name itself for 0.
fn indexed_name(name: &str, n: u64) -> (r: String)
    ensures
        r@ == copy_name(name@, n as nat),
{
    if n == 0 {
        String::from_str(name)
    } else {
        let mut s = String::new();
        proof {
            reveal_strlit("(");
            reveal_strlit(") ");
        }
        s.append("(");
        push_decimal(&mut s, n);
        s.append(") ");
        s.append(name);
        assert(s@ =~= seq!['('] + decimal(n as nat) + seq![')', ' '] + name@);
        s
    }
}

/// Whether a name is among the taken ones.
fn is_taken(taken: &Vec<String>, name: &String) -> (r: bool)
    ensures
        r == names(taken@).contains(name@),
{
    let mut i: usize = 0;
    while i < taken.len()
        invariant
            i <= taken.len(),
            forall|j: int| 0 <= j < i ==> taken@[j]@ != name@,
        decreases taken.len() - i,
    {
        if taken[i] == *name {
            assert(names(taken@)[i as int] == name@);
            return true;
        }
        i += 1;
    }
    proof {
        if names(taken@).contains(name@) {
            let j = choose|j: int| 0 <= j < names(taken@).len() && names(taken@)[j] == name@;
            assert(taken@[j]@ == name@);
        }
    }
    false
}

/// Computes the destination of a file named `name` taken at `ts`, given the
/// names already present in its month's directory: the name itself where it is
/// free; where it is taken, an error under `Skip`, the same path under
/// `Overwrite`, and the first free copy index under `Rename`.
pub fn new_file_path(
    name: &str,
    target_dir: &str,
    ts: &Timestamp,
    collision: Collision,
    taken: &Vec<String>,
) -> (r: Result<String, PlaceError>)
    requires
        ts.wf(),
        taken.len() < u64::MAX,
    ensures
        match placement(target_dir@, *ts, name@, collision, names(taken@)) {
            Ok(p) => r matches Ok(s) && s@ == p,
            Err(p) => r matches Err(PlaceError::AlreadyExists(s)) && s@ == p,
        },
{
    let ghost t = names(taken@);
    let dir = month_directory(target_dir, ts);
    let mut cand = indexed_name(name, 0);
    if is_taken(taken, &cand) {
        match collision {
            Collision::Skip => {
                let mut p = dir;
                push_component(&mut p, cand.as_str());
                return Err(PlaceError::AlreadyExists(p));
            },
            Collision::Overwrite => {},
            Collision::Rename => {
                let mut n: u64 = 0;
                while is_taken(taken, &cand)
                    invariant
                        n <= taken.len(),
                        taken.len() < u64::MAX,
                        t == names(taken@),
                        cand@ == copy_name(name@, n as nat),
                        forall|i: nat| i < n ==> t.contains(#[trigger] copy_name(name@, i)),
                    decreases taken.len() - n,
                {
                    proof {
                        lemma_free_index_exists(t, name@);
                        if n == taken.len() {
                            let i = choose|i: nat|
                                i <= t.len() && !t.contains(#[trigger] copy_name(name@, i));
                            if i < n {
                                assert(t.contains(copy_name(name@, i)));
                            }
                        }
                    }
                    n = n + 1;
                    cand = indexed_name(name, n);
                }
                proof {
                    lemma_first_free_is(t, name@, 0, n as nat);
                }
            },
        }
    }
    let mut p = dir;
    push_component(&mut p, cand.as_str());
    Ok(p)
}

} // verus!
