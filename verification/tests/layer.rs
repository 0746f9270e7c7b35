use network::layer::Layer;
use network::matrix::Matrix;
use std::cell::Cell;

#[test]
fn layer_create_has_a_row_for_each_input_and_one_for_the_bias() {
    let layer: Layer<f32> = Layer::create(3, 2, || 0.75);
    assert_eq!(layer.weights.rows, 3);
    assert_eq!(layer.weights.cols, 3);
    assert_eq!(layer.weights.elements, vec![0.5; 9]);
}

#[test]
fn layer_create_spreads_each_sample() {
    let samples = [0., 0.25, 0.5, 0.75];
    let next = Cell::new(0);
    let layer: Layer<f32> = Layer::create(2, 1, || {
        let i = next.get();
        next.set(i + 1);
        samples[i]
    });
    assert_eq!(next.get(), 4);
    assert_eq!(
        layer.weights,
        Matrix::create(2, 2, vec![-1., -0.5, 0., 0.5])
    );
}

#[test]
fn layer_create_with_random_weights_stays_between_minus_one_and_one() {
    let layer: Layer<f32> = Layer::create(7, 4, rand::random::<f32>);
    assert_eq!(layer.weights.rows, 5);
    assert_eq!(layer.weights.cols, 7);
    assert_eq!(layer.weights.elements.len(), 35);
    for w in layer.weights.elements.iter() {
        assert!(-1. <= *w && *w < 1.);
    }
}

#[test]
fn layer_create_without_nodes_or_inputs() {
    let no_nodes: Layer<f32> = Layer::create(0, 4, || 0.5);
    assert_eq!((no_nodes.weights.cols, no_nodes.weights.rows), (0, 5));
    assert!(no_nodes.weights.elements.is_empty());
    let no_inputs: Layer<f32> = Layer::create(2, 0, || 0.5);
    assert_eq!((no_inputs.weights.cols, no_inputs.weights.rows), (2, 1));
    assert_eq!(no_inputs.weights.elements, vec![0., 0.]);
}

#[test]
fn layer_feed_forward_adds_the_bias_row() {
    let layer = Layer {
        weights: Matrix::create(2, 3, vec![1., 2., 3., 4., 0.5, -0.5]),
    };
    let out = layer.feed_forward(Matrix::from_vec(vec![10., 100.]));
    assert_eq!(out, Matrix::create(2, 1, vec![310.5, 419.5]));
}

#[test]
fn layer_adjust_weights_adds_element_by_element() {
    let mut layer = Layer {
        weights: Matrix::create(2, 2, vec![1., 2., 3., 4.]),
    };
    layer.adjust_weights(&Matrix::create(2, 2, vec![0.5, -2., 0., 10.]));
    assert_eq!(layer.weights, Matrix::create(2, 2, vec![1.5, 0., 3., 14.]));
}
