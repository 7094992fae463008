use call_resolution::span::Span;

fn outside(s: Span) -> swc_common::Span {
    swc_common::Span::new(swc_common::BytePos(s.lo), swc_common::BytePos(s.hi))
}

#[test]
fn covering_span_reaches_from_the_first_start_to_the_last_end() {
    let a = Span { lo: 4, hi: 9 };
    let b = Span { lo: 7, hi: 20 };
    assert_eq!(a.to(b), Span { lo: 4, hi: 20 });
    assert_eq!(b.to(a), Span { lo: 4, hi: 20 });
    assert_eq!(a.to(a), a);
}

#[test]
fn covering_span_agrees_with_the_parser() {
    let pairs = [(1, 2, 3, 4), (3, 4, 1, 2), (1, 10, 2, 3), (5, 5, 5, 5), (2, 8, 4, 12)];
    for (a, b, c, d) in pairs {
        let x = Span { lo: a, hi: b };
        let y = Span { lo: c, hi: d };
        let z = outside(x).to(outside(y));
        assert_eq!(x.to(y), Span { lo: z.lo.0, hi: z.hi.0 });
    }
}
