use network::network::{Network, TrainingBatch};
use std::cell::Cell;

fn from(samples: Vec<f32>) -> impl Fn() -> f32 {
    let next = Cell::new(0);
    move || {
        let i = next.get();
        next.set(i + 1);
        samples[i % samples.len()]
    }
}

fn size(n: usize) -> f32 {
    n as f32
}

#[test]
fn network_create_threads_the_widths_through_the_layers() {
    let network: Network<f32> = Network::create(vec![3, 5, 2], 4, || 0.5);
    let out = network.get_output_layer();
    assert_eq!(out.weights.rows, 6);
    assert_eq!(out.weights.cols, 2);
    assert_eq!(out.weights.elements, vec![0.; 12]);
    assert_eq!(network.feed_forward(vec![1., 2., 3., 4.]), vec![0., 0.]);
}

#[test]
fn network_feed_forward_of_one_layer() {
    // weights 0.5, -0.5 for the input and 0.25, 0.75 for the bias
    let network: Network<f32> = Network::create(vec![2], 1, from(vec![0.75, 0.25, 0.625, 0.875]));
    assert_eq!(
        network.get_output_layer().weights.elements,
        vec![0.5, -0.5, 0.25, 0.75]
    );
    assert_eq!(network.feed_forward(vec![2.]), vec![1.25, -0.25]);
}

#[test]
fn network_feed_forward_applies_no_activation_between_layers() {
    // first layer: one node, weight -1 and bias 0; second layer: one node, weight 0.5 and bias 0.25
    let network: Network<f32> = Network::create(vec![1, 1], 1, from(vec![0., 0.5, 0.75, 0.625]));
    assert_eq!(network.feed_forward(vec![3.]), vec![-1.25]);
}

#[test]
fn network_without_layers_hands_the_inputs_back() {
    let network: Network<f32> = Network::create(vec![], 3, || 0.5);
    assert_eq!(network.feed_forward(vec![1., 2., 3.]), vec![1., 2., 3.]);
}

#[test]
fn network_train_takes_one_step_of_gradient_descent() {
    // weight 0.5, bias 0.25
    let mut network: Network<f32> = Network::create(vec![1], 1, from(vec![0.75, 0.625]));
    let batch = vec![TrainingBatch { input: vec![2.], expected: vec![1.] }];
    network.train(batch, 0.5, size);
    // raw output 1.25, error 0.25, gradient (0.5, 0.25), step (-0.25, -0.125)
    assert_eq!(network.get_output_layer().weights.elements, vec![0.25, 0.125]);
}

#[test]
fn network_train_averages_over_the_batch() {
    let mut network: Network<f32> = Network::create(vec![1], 1, from(vec![0.75, 0.625]));
    let batch = vec![
        TrainingBatch { input: vec![2.], expected: vec![1.] },
        TrainingBatch { input: vec![-4.], expected: vec![0.] },
        TrainingBatch { input: vec![0.], expected: vec![0.75] },
        TrainingBatch { input: vec![1.], expected: vec![0.25] },
    ];
    network.train(batch, 1., size);
    // gradients (0.5, 0.25), (0, 0), (0, -0.5), (0.5, 0.5): their sum is (1, 0.25)
    assert_eq!(
        network.get_output_layer().weights.elements,
        vec![0.25, 0.1875]
    );
}

#[test]
fn network_train_leaves_the_weights_where_the_slope_is_zero() {
    // weight -1, bias -1: the raw output is negative for positive inputs
    let mut network: Network<f32> = Network::create(vec![1], 1, from(vec![0., 0.]));
    let batch = vec![TrainingBatch { input: vec![3.], expected: vec![1.] }];
    network.train(batch, 0.5, size);
    assert_eq!(network.get_output_layer().weights.elements, vec![-1., -1.]);
}

#[test]
fn network_train_takes_the_gradient_at_the_last_layer_and_moves_the_first() {
    // two layers of the same shape: one input, one node
    let mut network: Network<f32> =
        Network::create(vec![1, 1], 1, from(vec![1., 1., 0.75, 0.625]));
    assert_eq!(network.feed_forward(vec![0.]), vec![0.75]);
    let batch = vec![TrainingBatch { input: vec![2.], expected: vec![1.] }];
    network.train(batch, 0.5, size);
    // the last layer keeps weight 0.5 and bias 0.25
    assert_eq!(network.get_output_layer().weights.elements, vec![0.5, 0.25]);
    // the first layer went from (1, 1) to (0.75, 0.875)
    assert_eq!(network.feed_forward(vec![0.]), vec![0.6875]);
    assert_eq!(network.feed_forward(vec![1.]), vec![1.0625]);
}

struct Dice(u32);

impl Dice {
    fn roll(&mut self) -> f32 {
        self.0 = self.0.wrapping_mul(1664525).wrapping_add(1013904223);
        (self.0 >> 8) as f32 / 16777216.
    }
}

fn sample(dice: &mut Dice) -> (Vec<f32>, bool) {
    let x = dice.roll() * 2. - 1.;
    let y = dice.roll() * 2. - 1.;
    (vec![x, y], y > 0.4 * x + 0.1)
}

#[test]
fn network_of_one_layer_learns_a_line() {
    let mut dice = Dice(7);
    let mut network: Network<f32> = Network::create(vec![2], 2, || 0.75);
    for _ in 0..400 {
        let batch = (0..200)
            .map(|_| {
                let (input, above) = sample(&mut dice);
                let expected = if above { vec![1., 0.] } else { vec![0., 1.] };
                TrainingBatch { input, expected }
            })
            .collect::<Vec<TrainingBatch<f32>>>();
        network.train(batch, 0.5, size);
    }
    let mut correct = 0;
    for _ in 0..1000 {
        let (input, above) = sample(&mut dice);
        let guess = network.feed_forward(input);
        if (guess[0] >= guess[1]) == above {
            correct += 1;
        }
    }
    assert!(correct >= 950, "only {} of 1000 held-out points were classed rightly", correct);
}
