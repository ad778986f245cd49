use splinify::knots::cardinal_knots;
use std::iter::repeat;

#[test]
fn test_iter() {
    let v: Vec<f64> = repeat(5.0).take(81).scan(380.0, |s, dx| {let t=*s; *s+=dx; Some(t)}).collect();
    println!("{:?}", v);

    let w: Vec<f64> = repeat(5.0).scan(380.0, |s, dx| {let t=*s; *s+=dx; if t>780.0 {None } else {Some(t)}}).collect();
    println!("{:?}", w);
}

#[test]
fn cardinal_grid_is_clamped_for_cubic_fit() {
    let grid: Vec<f64> = repeat_grid(380.0, 5.0, 780.0);
    assert_eq!(grid.len(), 81);
    let t = cardinal_knots(&grid, 3).unwrap();
    assert_eq!(t.len(), 81 + 8);
    assert_eq!(&t[0..5], &[380.0, 380.0, 380.0, 380.0, 380.0]);
    assert_eq!(t[5], 385.0);
    assert_eq!(&t[t.len() - 5..], &[780.0, 780.0, 780.0, 780.0, 780.0]);
}

fn repeat_grid(tb: f64, dt: f64, te: f64) -> Vec<f64> {
    repeat(dt)
        .scan(tb, |s, dx| {
            let t = *s;
            *s += dx;
            if t > te { None } else { Some(t) }
        })
        .collect()
}
