//! The name under which a generator is registered.
use vstd::prelude::*;
use vstd::string::StringExecFns;

verus! {

/// The decimal digits of `n`, without leading zeros.
pub open spec fn digits(n: nat) -> Seq<char>
    decreases n,
{
    let last = ('0' as nat + n % 10) as char;
    if n < 10 {
        seq![last]
    } else {
        digits(n / 10).push(last)
    }
}

/// `n` in decimal notation.
pub open spec fn decimal(n: int) -> Seq<char> {
    if n < 0 {
        seq!['-'] + digits((-n) as nat)
    } else {
        digits(n as nat)
    }
}

/// The name of the generator of the device with this index.
pub open spec fn name_of(index: i32) -> Seq<char> {
    "virtio_rng."@ + decimal(index as int)
}

fn digit(n: u32) -> (text: &'static str)
    requires
        n < 10,
    ensures
        text@ == seq![('0' as nat + n) as char],
{
    proof {
        reveal_strlit("0");
        reveal_strlit("1");
        reveal_strlit("2");
        reveal_strlit("3");
        reveal_strlit("4");
        reveal_strlit("5");
        reveal_strlit("6");
        reveal_strlit("7");
        reveal_strlit("8");
        reveal_strlit("9");
    }
    match n {
        0 => "0",
        1 => "1",
        2 => "2",
        3 => "3",
        4 => "4",
        5 => "5",
        6 => "6",
        7 => "7",
        8 => "8",
        _ => "9",
    }
}

fn append_digits(text: &mut String, n: u32)
    ensures
        final(text)@ == old(text)@ + digits(n as nat),
    decreases n,
{
    if n >= 10 {
        append_digits(text, n / 10);
    }
    text.append(digit(n % 10));
}

/// The name of the generator of the device with this index.
pub fn device_name(index: i32) -> (name: String)
    ensures
        name@ == name_of(index),
{
    let mut name = String::from_str("virtio_rng.");
    let mut magnitude: i64 = index as i64;
    if index < 0 {
        proof {
            reveal_strlit("-");
        }
        name.append("-");
        magnitude = -magnitude;
    }
    append_digits(&mut name, magnitude as u32);
    assert(name@ =~= name_of(index));
    name
}

proof fn lemma_value_of_digits(n: nat)
    ensures
        value_of(digits(n)) == n,
        digits(n).len() > 0,
        forall|i: int| 0 <= i < digits(n).len() ==> '0' <= #[trigger] digits(n)[i] <= '9',
    decreases n,
{
    if n >= 10 {
        lemma_value_of_digits(n / 10);
        assert(digits(n).drop_last() =~= digits(n / 10));
    } else {
        assert(digits(n).drop_last() =~= Seq::<char>::empty());
        assert(value_of(Seq::<char>::empty()) == 0);
    }
}

/// The number that a sequence of decimal digits denotes.
pub open spec fn value_of(text: Seq<char>) -> nat
    decreases text.len(),
{
    if text.len() == 0 {
        0
    } else {
        10 * value_of(text.drop_last()) + (text.last() as nat - '0' as nat) as nat
    }
}

/// Devices with different indices have generators with different names.
pub proof fn law_names_are_distinct(a: i32, b: i32)
    requires
        name_of(a) == name_of(b),
    ensures
        a == b,
{
    let prefix = "virtio_rng."@;
    let n = prefix.len() as int;
    assert(decimal(a as int) =~= name_of(a).subrange(n, name_of(a).len() as int));
    assert(decimal(b as int) =~= name_of(b).subrange(n, name_of(b).len() as int));
    let (p, q) = (decimal(a as int), decimal(b as int));
    let x = if a < 0 {
        -a
    } else {
        a as int
    };
    let y = if b < 0 {
        -b
    } else {
        b as int
    };
    lemma_value_of_digits(x as nat);
    lemma_value_of_digits(y as nat);
    assert(a < 0 <==> p[0] == '-');
    assert(b < 0 <==> q[0] == '-');
    if a < 0 {
        assert(digits(x as nat) =~= p.subrange(1, p.len() as int));
        assert(digits(y as nat) =~= q.subrange(1, q.len() as int));
    }
}

proof fn lemma_no_leading_zero(n: nat)
    ensures
        n > 0 ==> digits(n)[0] != '0',
        n == 0 ==> digits(n) =~= seq!['0'],
        digits(n).len() > 0,
    decreases n,
{
    if n >= 10 {
        lemma_no_leading_zero(n / 10);
        assert(digits(n)[0] == digits(n / 10)[0]);
    }
}

/// The name of a generator is `virtio_rng.` and then the index of the device in decimal notation: a
/// minus sign where it is negative, and digits that denote its magnitude, without leading zeros.
pub proof fn law_names(index: i32, name: String)
    requires
        call_ensures(device_name, (index,), name),
    ensures
        name@ == name_of(index),
        ({
            let prefix = "virtio_rng."@;
            let start = prefix.len() as int + if index < 0 {
                1int
            } else {
                0
            };
            let number = name@.subrange(start, name@.len() as int);
            &&& prefix.is_prefix_of(name@)
            &&& index < 0 ==> name@[prefix.len() as int] == '-'
            &&& number.len() > 0
            &&& forall|i: int| 0 <= i < number.len() ==> '0' <= #[trigger] number[i] <= '9'
            &&& value_of(number) == if index < 0 {
                -index
            } else {
                index as int
            }
            &&& number[0] == '0' ==> number.len() == 1
        }),
{
    let prefix = "virtio_rng."@;
    let magnitude = if index < 0 {
        (-index) as nat
    } else {
        index as nat
    };
    let start = prefix.len() as int + if index < 0 {
        1int
    } else {
        0
    };
    lemma_value_of_digits(magnitude);
    lemma_no_leading_zero(magnitude);
    assert(name@.subrange(start, name@.len() as int) =~= digits(magnitude));
    assert(name@.subrange(0, prefix.len() as int) =~= prefix);
}

} // verus!
