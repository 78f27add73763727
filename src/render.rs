//! The textual form of an expression: every operation fully parenthesised as
//! `(left OP right)`, integers in decimal.
use vstd::prelude::*;
use crate::expression::Expr;

verus! {

/// The character of a decimal digit.
pub open spec fn digit_char(d: nat) -> char {
    ((48 + d) as u8) as char
}

/// Decimal digits of a natural number, most significant first, no leading zeros.
pub open spec fn digits(n: nat) -> Seq<char>
    decreases n,
{
    if n < 10 {
        seq![digit_char(n)]
    } else {
        digits(n / 10) + seq![digit_char(n % 10)]
    }
}

/// Decimal form of an integer, with a leading `-` when negative.
pub open spec fn decimal(x: int) -> Seq<char> {
    if x < 0 {
        seq!['-'] + digits((-x) as nat)
    } else {
        digits(x as nat)
    }
}

/// `(l op r)`, with one space on each side of the operator.
pub open spec fn infix(l: Seq<char>, op: char, r: Seq<char>) -> Seq<char> {
    seq!['('] + l + seq![' ', op, ' '] + r + seq![')']
}

/// The text of an expression: `Val` leaves in decimal, each operation parenthesised, with
/// `^` for a power.
pub open spec fn rendering(e: Expr) -> Seq<char>
    decreases e,
{
    match e {
        Expr::Val(x) => decimal(x as int),
        Expr::Add(a, b) => infix(rendering(*a), '+', rendering(*b)),
        Expr::Sub(a, b) => infix(rendering(*a), '-', rendering(*b)),
        Expr::Mul(a, b) => infix(rendering(*a), '*', rendering(*b)),
        Expr::Div(a, b) => infix(rendering(*a), '/', rendering(*b)),
        Expr::Rem(a, b) => infix(rendering(*a), '%', rendering(*b)),
        Expr::Exp(a, b) => infix(rendering(*a), '^', rendering(*b)),
    }
}

fn append_digit(out: &mut String, d: u128)
    requires
        d < 10,
    ensures
        final(out)@ == old(out)@ + seq![digit_char(d as nat)],
{
    match d {
        0 => {
            out.append("0");
            proof {
                reveal_strlit("0");
            }
        },
        1 => {
            out.append("1");
            proof {
                reveal_strlit("1");
            }
        },
        2 => {
            out.append("2");
            proof {
                reveal_strlit("2");
            }
        },
        3 => {
            out.append("3");
            proof {
                reveal_strlit("3");
            }
        },
        4 => {
            out.append("4");
            proof {
                reveal_strlit("4");
            }
        },
        5 => {
            out.append("5");
            proof {
                reveal_strlit("5");
            }
        },
        6 => {
            out.append("6");
            proof {
                reveal_strlit("6");
            }
        },
        7 => {
            out.append("7");
            proof {
                reveal_strlit("7");
            }
        },
        8 => {
            out.append("8");
            proof {
                reveal_strlit("8");
            }
        },
        9 => {
            out.append("9");
            proof {
                reveal_strlit("9");
            }
        },
        _ => {},
    }
}

fn append_digits(out: &mut String, n: u128)
    ensures
        final(out)@ == old(out)@ + digits(n as nat),
    decreases n,
{
    if n >= 10 {
        append_digits(out, n / 10);
    }
    append_digit(out, n % 10);
    proof {
        assert(out@ =~= old(out)@ + digits(n as nat));
    }
}

impl Expr {
    /// Appends the text of the expression (`rendering`) to `out`.
    pub fn write_to(&self, out: &mut String)
        ensures
            final(out)@ == old(out)@ + rendering(*self),
        decreases self,
    {
        match self {
            Expr::Val(x) => {
                if *x < 0 {
                    out.append("-");
                    proof {
                        reveal_strlit("-");
                    }
                    let m: u128 = (-(*x + 1)) as u128 + 1;
                    append_digits(out, m);
                } else {
                    append_digits(out, *x as u128);
                }
                proof {
                    assert(out@ =~= old(out)@ + rendering(*self));
                }
            },
            Expr::Add(a, b) => {
                out.append("(");
                a.write_to(out);
                out.append(" + ");
                b.write_to(out);
                out.append(")");
                proof {
                    reveal_strlit("(");
                    reveal_strlit(" + ");
                    reveal_strlit(")");
                    assert(out@ =~= old(out)@ + rendering(*self));
                }
            },
            Expr::Sub(a, b) => {
                out.append("(");
                a.write_to(out);
                out.append(" - ");
                b.write_to(out);
                out.append(")");
                proof {
                    reveal_strlit("(");
                    reveal_strlit(" - ");
                    reveal_strlit(")");
                    assert(out@ =~= old(out)@ + rendering(*self));
                }
            },
            Expr::Mul(a, b) => {
                out.append("(");
                a.write_to(out);
                out.append(" * ");
                b.write_to(out);
                out.append(")");
                proof {
                    reveal_strlit("(");
                    reveal_strlit(" * ");
                    reveal_strlit(")");
                    assert(out@ =~= old(out)@ + rendering(*self));
                }
            },
            Expr::Div(a, b) => {
                out.append("(");
                a.write_to(out);
                out.append(" / ");
                b.write_to(out);
                out.append(")");
                proof {
                    reveal_strlit("(");
                    reveal_strlit(" / ");
                    reveal_strlit(")");
                    assert(out@ =~= old(out)@ + rendering(*self));
                }
            },
            Expr::Rem(a, b) => {
                out.append("(");
                a.write_to(out);
                out.append(" % ");
                b.write_to(out);
                out.append(")");
                proof {
                    reveal_strlit("(");
                    reveal_strlit(" % ");
                    reveal_strlit(")");
                    assert(out@ =~= old(out)@ + rendering(*self));
                }
            },
            Expr::Exp(a, b) => {
                out.append("(");
                a.write_to(out);
                out.append(" ^ ");
                b.write_to(out);
                out.append(")");
                proof {
                    reveal_strlit("(");
                    reveal_strlit(" ^ ");
                    reveal_strlit(")");
                    assert(out@ =~= old(out)@ + rendering(*self));
                }
            },
        }
    }

    /// The text of the expression, e.g. `((1 + 2) * 3)`.
    pub fn to_string(&self) -> (r: String)
        ensures
            r@ == rendering(*self),
    {
        let mut out = String::new();
        self.write_to(&mut out);
        proof {
            assert(out@ =~= rendering(*self));
        }
        out
    }
}

} // verus!
