use network::perceptron::color_palette::{Argb, ColorPalette};
use network::perceptron::data::{DataPoint, DataSet};
use network::perceptron::function::Function;
use network::perceptron::label::Label;
use network::perceptron::position::normalise_position;
use std::cell::Cell;

fn pixels(n: i32) -> f32 {
    n as f32
}

fn from(samples: Vec<f32>) -> impl Fn() -> f32 {
    let next = Cell::new(0);
    move || {
        let i = next.get();
        next.set(i + 1);
        samples[i % samples.len()]
    }
}

#[test]
fn normalise_position_lays_the_square_over_the_canvas() {
    assert_eq!(normalise_position((0., 0.), 800, 600, pixels), (400., 300.));
    assert_eq!(normalise_position((-1., -1.), 800, 600, pixels), (0., 600.));
    assert_eq!(normalise_position((1., 1.), 800, 600, pixels), (800., 0.));
    assert_eq!(normalise_position((0.5, -0.25), 800, 800, pixels), (600., 500.));
}

#[test]
fn normalise_position_halves_odd_sizes_towards_zero() {
    assert_eq!(normalise_position((1., 1.), 801, 601, pixels), (800., 1.));
    assert_eq!(normalise_position((1., 0.), 1, 1, pixels), (0., 1.));
    assert_eq!(normalise_position((1., 1.), -3, -5, pixels), (-2., -1.));
}

#[test]
fn function_get_y_is_the_height_of_the_line() {
    let f: Function<f32> = Function::create(2., -0.5);
    assert_eq!(f.m, 2.);
    assert_eq!(f.c, -0.5);
    assert_eq!(f.get_y(0.), -0.5);
    assert_eq!(f.get_y(1.5), 2.5);
    assert_eq!(f.get_y(-1.), -2.5);
}

#[test]
fn function_classify_is_a_above_the_line_and_b_on_it_or_below() {
    let f: Function<f32> = Function::create(1., 0.25);
    assert_eq!(f.classify((0., 0.5)), Label::A);
    assert_eq!(f.classify((0., 0.25)), Label::B);
    assert_eq!(f.classify((0., 0.)), Label::B);
    assert_eq!(f.classify((-1., -0.5)), Label::A);
    assert_eq!(f.classify((1., 1.)), Label::B);
}

#[test]
fn label_target_is_one_at_the_place_of_the_class() {
    assert_eq!(Label::A.target::<f32>(), vec![1., 0.]);
    assert_eq!(Label::B.target::<f32>(), vec![0., 1.]);
}

#[test]
fn label_guess_is_b_only_where_the_second_output_is_greater() {
    assert_eq!(Label::guess(&vec![0.25_f32, 0.75]), Label::B);
    assert_eq!(Label::guess(&vec![0.75_f32, 0.25]), Label::A);
    assert_eq!(Label::guess(&vec![0.5_f32, 0.5]), Label::A);
    assert_eq!(Label::guess(&vec![f32::NAN, 0.5]), Label::A);
    assert_eq!(Label::guess(&vec![-1_f32, 0., 7.]), Label::B);
}

#[test]
fn data_point_random_is_labelled_by_the_classifier() {
    let f: Function<f32> = Function::create(0., 0.);
    // coordinates 0.5 and -0.5: below the horizontal axis
    let below = DataPoint::random(&f, from(vec![0.75, 0.25]));
    assert_eq!(below.position, (0.5, -0.5));
    assert_eq!(below.label, Label::B);
    assert_eq!(below.guess, None);
    let above = DataPoint::random(&f, from(vec![0.25, 0.75]));
    assert_eq!(above.position, (-0.5, 0.5));
    assert_eq!(above.label, Label::A);
    assert_eq!(above.guess, None);
}

#[test]
fn data_set_generate_makes_as_many_points_as_asked() {
    let f: Function<f32> = Function::create(1., 0.);
    let set = DataSet::generate(3, &f, from(vec![0., 0.5, 1., 0.75, 0.5, 0.5]));
    assert_eq!(set.points.len(), 3);
    assert_eq!(set.points[0].position, (-1., 0.));
    assert_eq!(set.points[0].label, Label::A);
    assert_eq!(set.points[1].position, (1., 0.5));
    assert_eq!(set.points[1].label, Label::B);
    assert_eq!(set.points[2].position, (0., 0.));
    assert_eq!(set.points[2].label, Label::B);
    let none = DataSet::generate(0, &f, || 0.5_f32);
    assert!(none.points.is_empty());
}

#[test]
fn data_set_extend_keeps_the_points_that_are_there() {
    let f: Function<f32> = Function::create(1., 0.);
    let mut set = DataSet::generate(2, &f, from(vec![0., 0.5, 1., 0.75]));
    set.points[0].guess = Some(Label::B);
    set.extend(2, &f, from(vec![0.5, 1., 0.25, 0.]));
    assert_eq!(set.points.len(), 4);
    assert_eq!(set.points[0].position, (-1., 0.));
    assert_eq!(set.points[0].guess, Some(Label::B));
    assert_eq!(set.points[1].position, (1., 0.5));
    assert_eq!(set.points[2].position, (0., 1.));
    assert_eq!(set.points[2].label, Label::A);
    assert_eq!(set.points[2].guess, None);
    assert_eq!(set.points[3].position, (-0.5, -1.));
    assert_eq!(set.points[3].label, Label::B);
    set.extend(0, &f, || 0.5_f32);
    assert_eq!(set.points.len(), 4);
}

#[test]
fn data_set_of_random_points_lies_in_the_square() {
    let f: Function<f32> = Function::create(0.5, 0.1);
    let set = DataSet::generate(200, &f, rand::random::<f32>);
    assert_eq!(set.points.len(), 200);
    for p in set.points.iter() {
        assert!(-1. <= p.position.0 && p.position.0 < 1.);
        assert!(-1. <= p.position.1 && p.position.1 < 1.);
        assert_eq!(p.label, f.classify(p.position));
    }
}

#[test]
fn color_palette_holds_the_channels_of_each_colour() {
    assert_eq!(ColorPalette::label_b(), Argb { a: 0xff, r: 0, g: 0, b: 0xff });
    assert_eq!(ColorPalette::label_a(), Argb { a: 0xff, r: 0xff, g: 0x66, b: 0xff });
    assert_eq!(ColorPalette::correct(), Argb { a: 0, r: 0, g: 0, b: 0 });
    assert_eq!(ColorPalette::incorrect(), Argb { a: 0xff, r: 0xff, g: 0, b: 0 });
    assert_eq!(ColorPalette::line_guess(), Argb { a: 0xff, r: 0, g: 0xff, b: 0 });
    assert_eq!(ColorPalette::background(), Argb { a: 0xff, r: 0xff, g: 0xff, b: 0xff });
    assert_eq!(ColorPalette::line(), Argb { a: 0xff, r: 0, g: 0, b: 0 });
}
