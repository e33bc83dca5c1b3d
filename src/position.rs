use vstd::prelude::*;
use vstd::string::StringExecFns;
use vector_x::Vector2;

verus! {

/// A cell coordinate: `x` is the column, `y` is the row.
#[derive(Clone, Copy, Debug)]
pub struct Position {
    pub x: usize,
    pub y: usize,
}

impl Position {
    /// The position of column `x` in row `y`.
    pub fn new(x: usize, y: usize) -> (r: Position)
        ensures
            r.x == x,
            r.y == y,
    {
        Position { x, y }
    }

    /// The origin, in spec code.
    pub open spec fn zero_spec() -> Position {
        Position { x: 0, y: 0 }
    }

    /// The top-left cell.
    pub fn zero() -> (r: Position)
        ensures
            r == Position::zero_spec(),
    {
        Position::new(0, 0)
    }
}

/// The decimal digit `d`.
pub open spec fn digit_char(d: nat) -> char {
    if d == 0 {
        '0'
    } else if d == 1 {
        '1'
    } else if d == 2 {
        '2'
    } else if d == 3 {
        '3'
    } else if d == 4 {
        '4'
    } else if d == 5 {
        '5'
    } else if d == 6 {
        '6'
    } else if d == 7 {
        '7'
    } else if d == 8 {
        '8'
    } else {
        '9'
    }
}

/// `n` written in decimal, with no leading zeros.
pub open spec fn decimal(n: nat) -> Seq<char>
    decreases n,
{
    if n < 10 {
        seq![digit_char(n)]
    } else {
        decimal(n / 10).push(digit_char(n % 10))
    }
}

/// How a position is shown: `[x: 3, y: 7]`.
pub open spec fn shown(p: Position) -> Seq<char> {
    seq!['[', 'x', ':', ' '] + decimal(p.x as nat) + seq![',', ' ', 'y', ':', ' '] + decimal(
        p.y as nat,
    ) + seq![']']
}

fn digit_text(d: usize) -> (t: &'static str)
    requires
        d < 10,
    ensures
        t@ == seq![digit_char(d as nat)],
{
    proof {
        reveal_strlit("0");
        reveal_strlit("1");
        reveal_strlit("2");
        reveal_strlit("3");
        reveal_strlit("4");
        reveal_strlit("5");
        reveal_strlit("6");
        reveal_strlit("7");
        reveal_strlit("8");
        reveal_strlit("9");
    }
    if d == 0 {
        "0"
    } else if d == 1 {
        "1"
    } else if d == 2 {
        "2"
    } else if d == 3 {
        "3"
    } else if d == 4 {
        "4"
    } else if d == 5 {
        "5"
    } else if d == 6 {
        "6"
    } else if d == 7 {
        "7"
    } else if d == 8 {
        "8"
    } else {
        "9"
    }
}

/// Appends `n` in decimal to `s`.
fn push_decimal(s: &mut String, n: usize)
    ensures
        final(s)@ == old(s)@ + decimal(n as nat),
    decreases n,
{
    if n >= 10 {
        push_decimal(s, n / 10);
    }
    s.append(digit_text(n % 10));
    proof {
        if n >= 10 {
            assert(old(s)@ + decimal(n as nat) =~= old(s)@ + decimal((n / 10) as nat) + seq![
                digit_char((n % 10) as nat),
            ]);
        }
    }
}

impl Position {
    /// The position as text, `[x: 3, y: 7]` for column 3 of row 7.
    pub fn to_string(&self) -> (t: String)
        ensures
            t@ == shown(*self),
    {
        proof {
            reveal_strlit("[x: ");
            reveal_strlit(", y: ");
            reveal_strlit("]");
        }
        let mut t = String::from_str("[x: ");
        push_decimal(&mut t, self.x);
        t.append(", y: ");
        push_decimal(&mut t, self.y);
        t.append("]");
        assert(t@ =~= shown(*self));
        t
    }
}

impl PartialEq for Position {
    fn eq(&self, other: &Position) -> (r: bool) {
        self.x == other.x && self.y == other.y
    }
}

impl vstd::std_specs::cmp::PartialEqSpecImpl for Position {
    open spec fn obeys_eq_spec() -> bool {
        true
    }

    open spec fn eq_spec(&self, other: &Position) -> bool {
        self.x == other.x && self.y == other.y
    }
}

/// vector_x's `Vector2`, a pair with public fields `one` and `two`, which Verus reads as they are.
#[verifier::external_type_specification]
#[verifier::reject_recursive_types(T)]
pub struct ExVector2<T>(Vector2<T>);

impl From<Position> for Vector2<usize> {
    fn from(p: Position) -> (v: Vector2<usize>) {
        Vector2 { one: p.x, two: p.y }
    }
}

impl vstd::std_specs::convert::FromSpecImpl<Position> for Vector2<usize> {
    open spec fn obeys_from_spec() -> bool {
        true
    }

    open spec fn from_spec(p: Position) -> Vector2<usize> {
        Vector2 { one: p.x, two: p.y }
    }
}

impl From<Vector2<usize>> for Position {
    fn from(v: Vector2<usize>) -> (p: Position) {
        Position::new(v.one, v.two)
    }
}

impl vstd::std_specs::convert::FromSpecImpl<Vector2<usize>> for Position {
    open spec fn obeys_from_spec() -> bool {
        true
    }

    open spec fn from_spec(v: Vector2<usize>) -> Position {
        Position { x: v.one, y: v.two }
    }
}

} // verus!
