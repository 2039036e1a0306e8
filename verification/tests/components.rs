use kord_model::activation::Sigmoid;
use kord_model::conv::ConvBlock;
use kord_model::double::Double;
use kord_model::error::ModelError;
use kord_model::mlp::Mlp;
use kord_model::mlp::ResidualBlock;
use kord_model::params::conv_parameter_count;
use kord_model::params::linear_parameter_count;
use kord_model::params::stack_parameter_count;
use kord_model::scalar::Scalar;
use kord_model::tensor::Tensor2;
use kord_model::tensor::Tensor3;

fn chance(value: f64) -> Double {
    Double::from_bits(value.to_bits())
}

fn number(value: f32) -> Scalar {
    Scalar::from_bits(value.to_bits())
}

fn rows_of(rows: usize, cols: usize, values: &[f32]) -> Tensor2 {
    Tensor2::from_bits(rows, cols, values.iter().map(|v| v.to_bits()).collect()).unwrap()
}

fn read(t: &Tensor2) -> Vec<f32> {
    t.to_bits().into_iter().map(f32::from_bits).collect()
}

fn wave(count: usize) -> Vec<f32> {
    (0..count).map(|i| ((i * 5 % 11) as f32 - 5.0) * 0.2).collect()
}

#[test]
fn sigmoid_of_zero_is_one_half_for_any_steepness() {
    for k in [f32::MIN_POSITIVE, 0.001, 0.5, 1.0, 3.0, 1000.0, f32::MAX] {
        let sigmoid = Sigmoid::new(number(k)).unwrap();
        let output = sigmoid.forward(rows_of(2, 3, &[0.0, -0.0, 0.0, 0.0, -0.0, 0.0]));
        assert_eq!(output.dims(), (2, 3));
        for bits in output.to_bits() {
            assert_eq!(bits, 0.5f32.to_bits());
        }
    }
}

#[test]
fn sigmoid_follows_the_logistic_curve() {
    let sigmoid = Sigmoid::new(number(2.0)).unwrap();
    let output = read(&sigmoid.forward(rows_of(1, 3, &[1.0, -1.0, 0.25])));
    let expected = [1.0 / (1.0 + (-2.0f32).exp()), 1.0 / (1.0 + 2.0f32.exp()), 1.0 / (1.0 + (-0.5f32).exp())];
    for (got, want) in output.iter().zip(expected.iter()) {
        assert!((got - want).abs() < 1e-6, "{} against {}", got, want);
    }
    assert!(output[0] > 0.88 && output[0] < 0.8809);
    assert!(output[1] < 0.12);
}

#[test]
fn sigmoid_grows_with_its_input() {
    for k in [0.25f32, 1.0, 4.0] {
        let sigmoid = Sigmoid::new(number(k)).unwrap();
        let inputs: Vec<f32> = (0..41).map(|i| (i as f32 - 20.0) * 0.1).collect();
        let output = read(&sigmoid.forward(rows_of(1, 41, &inputs)));
        for pair in output.windows(2) {
            assert!(pair[0] < pair[1]);
        }
        for s in output {
            assert!(s > 0.0 && s < 1.0);
        }
    }
}

#[test]
fn sigmoid_saturates_far_from_zero() {
    let sigmoid = Sigmoid::new(number(4.0)).unwrap();
    let output = read(&sigmoid.forward(rows_of(1, 4, &[-1000.0, -30.0, 30.0, 1000.0])));
    assert_eq!(output[0], 0.0);
    assert!(output[1] >= 0.0 && output[1] < 1.0e-30);
    assert_eq!(output[2], 1.0);
    assert_eq!(output[3], 1.0);
    for pair in output.windows(2) {
        assert!(pair[0] <= pair[1]);
    }
}

#[test]
fn sigmoid_steepens_with_its_coefficient() {
    let gentle = read(&Sigmoid::new(number(1.0)).unwrap().forward(rows_of(1, 1, &[1.0])));
    let steep = read(&Sigmoid::new(number(2.0)).unwrap().forward(rows_of(1, 1, &[1.0])));
    assert!(steep[0] > gentle[0]);
    assert!(gentle[0] > 0.5);
}

#[test]
fn sigmoid_refuses_a_steepness_that_is_not_finite_and_positive() {
    for k in [0.0f32, -0.0, -1.0, f32::INFINITY, f32::NEG_INFINITY, f32::NAN] {
        assert_eq!(Sigmoid::new(number(k)).unwrap_err(), ModelError::InvalidSteepness);
    }
    assert_eq!(Sigmoid::new(number(0.75)).unwrap().steepness(), number(0.75));
}

#[test]
fn residual_block_needs_equal_widths() {
    assert_eq!(ResidualBlock::new(3, 4, chance(0.0)).unwrap_err(), ModelError::ShapeMismatch);
    assert_eq!(ResidualBlock::new(4, 3, chance(0.0)).unwrap_err(), ModelError::ShapeMismatch);
    assert_eq!(ResidualBlock::new(0, 3, chance(0.0)).unwrap_err(), ModelError::ShapeMismatch);
    assert_eq!(ResidualBlock::new(0, 0, chance(0.0)).unwrap_err(), ModelError::InvalidWidth);
    assert_eq!(ResidualBlock::new(4, 4, chance(1.25)).unwrap_err(), ModelError::InvalidDropout);
    assert_eq!(ResidualBlock::new(4, 4, chance(0.0)).unwrap().row_width(), 4);
    assert_eq!(
        ResidualBlock::from_parameters(3, 4, chance(0.0), vec![0; 12]).unwrap_err(),
        ModelError::ShapeMismatch
    );
}

#[test]
fn residual_block_applies_weights_row_by_row_and_then_biases() {
    // Weights [[1, 2], [3, 4]], biases [10, 20].
    let listed: Vec<u32> = [1.0f32, 2.0, 3.0, 4.0, 10.0, 20.0].iter().map(|v| v.to_bits()).collect();
    let block = ResidualBlock::from_parameters(2, 2, chance(0.0), listed.clone()).unwrap();
    assert_eq!(block.parameters(), listed);
    let output = read(&block.forward(rows_of(2, 2, &[1.0, 1.0, -8.0, 0.5])));
    // Row one: 1 + (1 + 3 + 10), 1 + (2 + 4 + 20).
    // Row two: the affine layer gives 3.5 and 6, so -8 + 3.5 and 0.5 + 6.
    assert_eq!(output, vec![15.0, 27.0, -4.5, 6.5]);
}

#[test]
fn residual_block_rectifies_before_it_adds() {
    // Weights [[-1, 0], [0, 1]], no bias: the first column is negated.
    let listed: Vec<u32> = [-1.0f32, 0.0, 0.0, 1.0, 0.0, 0.0].iter().map(|v| v.to_bits()).collect();
    let block = ResidualBlock::from_parameters(2, 2, chance(0.0), listed).unwrap();
    let output = read(&block.forward(rows_of(2, 2, &[3.0, 2.0, -3.0, -2.0])));
    assert_eq!(output, vec![3.0, 4.0, 0.0, -2.0]);
}

#[test]
fn residual_block_refuses_parameters_of_another_length() {
    for given in [0usize, 5, 7, 30] {
        assert_eq!(
            ResidualBlock::from_parameters(2, 2, chance(0.0), vec![0; given]).unwrap_err(),
            ModelError::ShapeMismatch
        );
    }
    assert_eq!(
        ResidualBlock::from_parameters(0, 0, chance(0.0), vec![]).unwrap_err(),
        ModelError::InvalidWidth
    );
    assert_eq!(
        ResidualBlock::from_parameters(2, 2, chance(-1.0), vec![0; 6]).unwrap_err(),
        ModelError::InvalidDropout
    );
}

#[test]
fn component_parameter_counts() {
    assert_eq!(linear_parameter_count(24, 16), Some(400));
    assert_eq!(linear_parameter_count(0, 5), Some(5));
    assert_eq!(linear_parameter_count(usize::MAX, 2), None);
    assert_eq!(linear_parameter_count(isize::MAX as usize, 1), None);
    assert_eq!(stack_parameter_count(3, 4), Some(60));
    assert_eq!(stack_parameter_count(0, usize::MAX), Some(0));
    assert_eq!(stack_parameter_count(2, usize::MAX), None);
    assert_eq!(conv_parameter_count(3, 5, 4), Some(60));
    assert_eq!(conv_parameter_count(0, usize::MAX, usize::MAX), Some(0));
    assert_eq!(conv_parameter_count(usize::MAX, 2, 2), None);
}

#[test]
fn residual_block_refuses_rows_of_another_width() {
    let block = ResidualBlock::new(4, 4, chance(0.0)).unwrap();
    assert_eq!(block.try_forward(rows_of(2, 3, &[0.0; 6])).unwrap_err(), ModelError::ShapeMismatch);
    assert_eq!(block.try_forward(rows_of(2, 5, &[0.0; 10])).unwrap_err(), ModelError::ShapeMismatch);
    assert_eq!(block.try_forward(rows_of(0, 4, &[])).unwrap_err(), ModelError::EmptyBatch);
    assert_eq!(block.try_forward(rows_of(2, 4, &[0.0; 8])).unwrap().dims(), (2, 4));
}

#[test]
fn residual_block_without_dropout_is_deterministic() {
    let block = ResidualBlock::new(6, 6, chance(0.0)).unwrap();
    let input = wave(18);
    let first = block.forward(rows_of(3, 6, &input)).to_bits();
    let second = block.forward(rows_of(3, 6, &input)).to_bits();
    assert_eq!(first, second);
}

#[test]
fn residual_block_with_zero_weights_is_the_identity() {
    let block = ResidualBlock::from_parameters(5, 5, chance(0.0), vec![0; 30]).unwrap();
    let input = wave(10);
    let output = block.forward(rows_of(2, 5, &input));
    assert_eq!(output.dims(), (2, 5));
    assert_eq!(read(&output), input);
}

#[test]
fn residual_block_adds_a_rectified_signal_to_its_input() {
    let block = ResidualBlock::new(16, 16, chance(0.0)).unwrap();
    let input = wave(64);
    let output = read(&block.forward(rows_of(4, 16, &input)));
    assert_eq!(output.len(), 64);
    let mut raised = 0;
    for (y, x) in output.iter().zip(input.iter()) {
        assert!(y >= x);
        if y > x {
            raised += 1;
        }
    }
    assert!(raised > 0);
}

#[test]
fn hidden_stack_keeps_the_extent() {
    let stack = Mlp::new(3, 8, chance(0.1)).unwrap();
    assert_eq!(stack.layers(), 3);
    assert_eq!(stack.row_width(), 8);
    assert_eq!(stack.forward(rows_of(5, 8, &wave(40))).dims(), (5, 8));
}

#[test]
fn hidden_stack_with_zero_weights_is_the_identity() {
    let stack = Mlp::from_parameters(4, 3, chance(0.0), vec![0; 48]).unwrap();
    let input = wave(6);
    assert_eq!(read(&stack.forward(rows_of(2, 3, &input))), input);
}

#[test]
fn hidden_stack_refuses_bad_hyperparameters() {
    assert_eq!(Mlp::new(0, 8, chance(0.0)).unwrap_err(), ModelError::InvalidLayerCount);
    assert_eq!(Mlp::new(0, 0, chance(7.0)).unwrap_err(), ModelError::InvalidLayerCount);
    assert_eq!(Mlp::new(2, 0, chance(7.0)).unwrap_err(), ModelError::InvalidWidth);
    assert_eq!(Mlp::new(2, 8, chance(7.0)).unwrap_err(), ModelError::InvalidDropout);
    assert_eq!(Mlp::from_parameters(2, 2, chance(0.0), vec![0; 11]).unwrap_err(), ModelError::ShapeMismatch);
    assert_eq!(Mlp::from_parameters(2, 2, chance(0.0), vec![0; 13]).unwrap_err(), ModelError::ShapeMismatch);
    assert_eq!(Mlp::from_parameters(0, 2, chance(0.0), vec![]).unwrap_err(), ModelError::InvalidLayerCount);
}

#[test]
fn hidden_stack_lists_its_blocks_in_order() {
    let listed: Vec<u32> = (0..18).map(|i| (i as f32 * 0.5).to_bits()).collect();
    let stack = Mlp::from_parameters(3, 2, chance(0.0), listed.clone()).unwrap();
    assert_eq!(stack.layers(), 3);
    assert_eq!(stack.parameters(), listed);
    let fresh = Mlp::new(3, 2, chance(0.0)).unwrap();
    assert_eq!(fresh.parameters().len(), 18);
}

#[test]
fn hidden_stack_applies_its_blocks_in_order() {
    // Width one.  The first block doubles its input and adds one, the second adds its input
    // tripled: from 1 to 1 + (1 + 1) = 3, then to 3 + 9 = 12.  In the other order the result
    // would be 4 + (4 + 1) = 9.
    let listed: Vec<u32> = [1.0f32, 1.0, 3.0, 0.0].iter().map(|v| v.to_bits()).collect();
    let stack = Mlp::from_parameters(2, 1, chance(0.0), listed).unwrap();
    assert_eq!(read(&stack.forward(rows_of(1, 1, &[1.0]))), vec![12.0]);
}

#[test]
fn conv_block_shortens_the_sequence_by_the_window() {
    let block = ConvBlock::new(3, 5, 4).unwrap();
    let input = Tensor3::from_bits(2, 3, 10, wave(60).iter().map(|v| v.to_bits()).collect()).unwrap();
    let output = block.forward(input);
    assert_eq!(output.dims(), (2, 5, 7));
    assert_eq!(output.to_bits().len(), 70);
}

#[test]
fn conv_block_with_a_full_window_leaves_one_position() {
    let block = ConvBlock::new(1, 2, 6).unwrap();
    let input = Tensor3::from_bits(1, 1, 6, wave(6).iter().map(|v| v.to_bits()).collect()).unwrap();
    assert_eq!(block.forward(input).dims(), (1, 2, 1));
}

#[test]
fn conv_block_never_returns_a_number_below_zero() {
    let block = ConvBlock::new(4, 8, 3).unwrap();
    let input = Tensor3::from_bits(3, 4, 12, wave(144).iter().map(|v| v.to_bits()).collect()).unwrap();
    let output: Vec<f32> = block.forward(input).to_bits().into_iter().map(f32::from_bits).collect();
    assert_eq!(output.len(), 3 * 8 * 10);
    let mut clipped = 0;
    for v in output {
        assert!(v >= 0.0);
        if v == 0.0 {
            clipped += 1;
        }
    }
    assert!(clipped > 0);
}

#[test]
fn conv_block_refuses_bad_hyperparameters() {
    assert_eq!(ConvBlock::new(0, 5, 4).unwrap_err(), ModelError::InvalidWidth);
    assert_eq!(ConvBlock::new(3, 0, 4).unwrap_err(), ModelError::InvalidWidth);
    assert_eq!(ConvBlock::new(3, 5, 0).unwrap_err(), ModelError::InvalidKernel);
    assert_eq!(ConvBlock::new(0, 5, 0).unwrap_err(), ModelError::InvalidWidth);
}

#[test]
fn conv_block_refuses_wrong_extents() {
    let block = ConvBlock::new(3, 5, 4).unwrap();
    let empty = Tensor3::from_bits(0, 2, 10, vec![]).unwrap();
    assert_eq!(block.try_forward(empty).unwrap_err(), ModelError::ShapeMismatch);
    let channels = Tensor3::from_bits(1, 2, 10, vec![0; 20]).unwrap();
    assert_eq!(block.try_forward(channels).unwrap_err(), ModelError::ShapeMismatch);
    let short = Tensor3::from_bits(1, 3, 3, vec![0; 9]).unwrap();
    assert_eq!(block.try_forward(short).unwrap_err(), ModelError::ShapeMismatch);
    let fine = Tensor3::from_bits(1, 3, 4, vec![0; 12]).unwrap();
    assert_eq!(block.try_forward(fine).unwrap().dims(), (1, 5, 1));
}

#[test]
fn conv_block_slides_its_window_and_rectifies() {
    let listed: Vec<u32> = [1.0f32, -1.0].iter().map(|v| v.to_bits()).collect();
    let block = ConvBlock::from_parameters(1, 1, 2, listed.clone()).unwrap();
    assert_eq!(block.parameters(), listed);
    let input = Tensor3::from_bits(1, 1, 4, [1.0f32, 3.0, 2.0, -5.0].iter().map(|v| v.to_bits()).collect());
    let output: Vec<f32> = block.forward(input.unwrap()).to_bits().into_iter().map(f32::from_bits).collect();
    // The window gives 1 - 3, 3 - 2 and 2 + 5.
    assert_eq!(output, vec![0.0, 1.0, 7.0]);
}

#[test]
fn conv_block_sums_over_input_channels_for_each_output_channel() {
    // Two input channels, two output channels, a window of one position.
    let listed: Vec<u32> = [1.0f32, 1.0, 1.0, -1.0].iter().map(|v| v.to_bits()).collect();
    let block = ConvBlock::from_parameters(2, 2, 1, listed).unwrap();
    let input = Tensor3::from_bits(1, 2, 2, [1.0f32, 2.0, 5.0, 1.0].iter().map(|v| v.to_bits()).collect());
    let output: Vec<f32> = block.forward(input.unwrap()).to_bits().into_iter().map(f32::from_bits).collect();
    assert_eq!(output, vec![6.0, 3.0, 0.0, 1.0]);
}

#[test]
fn conv_block_refuses_parameters_of_another_length() {
    assert_eq!(ConvBlock::from_parameters(3, 5, 4, vec![0; 59]).unwrap_err(), ModelError::ShapeMismatch);
    assert_eq!(ConvBlock::from_parameters(3, 5, 4, vec![0; 61]).unwrap_err(), ModelError::ShapeMismatch);
    assert_eq!(ConvBlock::from_parameters(0, 5, 4, vec![]).unwrap_err(), ModelError::InvalidWidth);
    assert_eq!(ConvBlock::from_parameters(3, 5, 0, vec![]).unwrap_err(), ModelError::InvalidKernel);
    assert_eq!(ConvBlock::new(3, 5, 4).unwrap().parameters().len(), 60);
}

#[test]
fn hidden_stack_refuses_rows_of_another_width() {
    let stack = Mlp::new(2, 4, chance(0.0)).unwrap();
    assert_eq!(stack.try_forward(rows_of(0, 4, &[])).unwrap_err(), ModelError::EmptyBatch);
    assert_eq!(stack.try_forward(rows_of(1, 3, &[0.0; 3])).unwrap_err(), ModelError::ShapeMismatch);
    assert_eq!(stack.try_forward(rows_of(0, 3, &[])).unwrap_err(), ModelError::EmptyBatch);
    assert_eq!(stack.try_forward(rows_of(3, 4, &[0.0; 12])).unwrap().dims(), (3, 4));
}

#[test]
fn sigmoid_hands_the_negated_scaled_input_to_the_exponential() {
    let sigmoid = Sigmoid::new(number(2.0)).unwrap();
    let argument = sigmoid.exponent(rows_of(1, 4, &[1.0, -3.0, 0.0, 0.25]));
    assert_eq!(argument.dims(), (1, 4));
    let expected: Vec<u32> = [-2.0f32, 6.0, -0.0, -0.5].iter().map(|v| v.to_bits()).collect();
    assert_eq!(argument.to_bits(), expected);
}

#[test]
fn sigmoid_bounds_an_exponential_by_adding_one_and_inverting() {
    let output = Sigmoid::bound(rows_of(2, 2, &[1.0, 0.0, 3.0, f32::INFINITY]));
    assert_eq!(output.dims(), (2, 2));
    let expected: Vec<u32> = [0.5f32, 1.0, 0.25, 0.0].iter().map(|v| v.to_bits()).collect();
    assert_eq!(output.to_bits(), expected);
}

#[test]
fn sigmoid_keeps_a_nan_a_nan() {
    let sigmoid = Sigmoid::new(number(1.0)).unwrap();
    let output = read(&sigmoid.forward(rows_of(1, 2, &[f32::NAN, 0.0])));
    assert!(output[0].is_nan());
    assert_eq!(output[1], 0.5);
    assert!(read(&sigmoid.exponent(rows_of(1, 1, &[f32::NAN])))[0].is_nan());
}

#[test]
fn residual_block_adds_the_rectified_projection_to_its_input() {
    let block = ResidualBlock::new(2, 2, chance(0.0)).unwrap();
    let input = rows_of(2, 2, &[1.0, 2.0, -1.0, 0.5]);
    let projected = rows_of(2, 2, &[-5.0, 4.0, 2.0, -0.0]);
    let output = block.combine(input, projected);
    assert_eq!(output.dims(), (2, 2));
    assert_eq!(read(&output), vec![1.0, 6.0, 1.0, 0.5]);
}

#[test]
fn residual_block_sum_is_rounded_to_the_nearest_number() {
    let block = ResidualBlock::new(1, 1, chance(0.0)).unwrap();
    // One plus two to the minus 24 lies halfway between two numbers and goes to the even one;
    // one plus three times that goes up.
    let output = block.combine(rows_of(1, 2, &[1.0, 1.0]), rows_of(1, 2, &[5.9604645e-8, 1.7881393e-7]));
    assert_eq!(output.to_bits(), vec![0x3f80_0000, 0x3f80_0002]);
}

#[test]
fn conv_block_serves_an_empty_batch() {
    let block = ConvBlock::new(3, 5, 4).unwrap();
    let output = block.forward(Tensor3::from_bits(0, 3, 10, vec![]).unwrap());
    assert_eq!(output.dims(), (0, 5, 7));
    assert!(output.to_bits().is_empty());
    let output = block.try_forward(Tensor3::from_bits(0, 3, 4, vec![]).unwrap()).unwrap();
    assert_eq!(output.dims(), (0, 5, 1));
}

#[test]
fn conv_block_returns_the_same_for_the_same_input() {
    let block = ConvBlock::new(3, 4, 2).unwrap();
    let bits: Vec<u32> = wave(30).iter().map(|v| v.to_bits()).collect();
    let first = block.forward(Tensor3::from_bits(2, 3, 5, bits.clone()).unwrap()).to_bits();
    let second = block.forward(Tensor3::from_bits(2, 3, 5, bits).unwrap()).to_bits();
    assert_eq!(first, second);
}

#[test]
fn conv_block_sums_channels_first_and_window_positions_within() {
    // One output channel over two input channels with a window of two.  The partial sums are
    // taken in the order of the weights: 2^24, then plus one (lost to rounding), then minus
    // 2^24, then plus one.  Any other order would give another result than one.
    let weights: Vec<u32> = [1.0f32, 1.0, 1.0, 1.0].iter().map(|v| v.to_bits()).collect();
    let block = ConvBlock::from_parameters(2, 1, 2, weights).unwrap();
    let input: Vec<u32> = [16777216.0f32, 1.0, -16777216.0, 1.0].iter().map(|v| v.to_bits()).collect();
    let output = block.forward(Tensor3::from_bits(1, 2, 2, input).unwrap());
    assert_eq!(output.dims(), (1, 1, 1));
    assert_eq!(output.to_bits(), vec![1.0f32.to_bits()]);
}

#[test]
fn sizes_too_large_for_the_engine_are_refused() {
    assert_eq!(ResidualBlock::new(usize::MAX, usize::MAX, chance(0.0)).unwrap_err(), ModelError::TooLarge);
    assert_eq!(ResidualBlock::new(usize::MAX, usize::MAX, chance(2.0)).unwrap_err(), ModelError::TooLarge);
    assert_eq!(
        ResidualBlock::from_parameters(usize::MAX, usize::MAX, chance(0.0), vec![]).unwrap_err(),
        ModelError::TooLarge
    );
    assert_eq!(Mlp::new(2, usize::MAX, chance(0.0)).unwrap_err(), ModelError::TooLarge);
    assert_eq!(Mlp::new(usize::MAX, 2, chance(0.0)).unwrap_err(), ModelError::TooLarge);
    assert_eq!(Mlp::from_parameters(usize::MAX, 2, chance(0.0), vec![]).unwrap_err(), ModelError::TooLarge);
    assert_eq!(ConvBlock::new(usize::MAX, 2, 2).unwrap_err(), ModelError::TooLarge);
    assert_eq!(ConvBlock::new(2, usize::MAX, 2).unwrap_err(), ModelError::TooLarge);
    assert_eq!(ConvBlock::new(2, 2, usize::MAX).unwrap_err(), ModelError::TooLarge);
    assert_eq!(ConvBlock::from_parameters(usize::MAX, 2, 2, vec![]).unwrap_err(), ModelError::TooLarge);
}
