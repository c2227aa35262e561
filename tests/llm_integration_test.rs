use learning_rs::llm::attn::{check_mask_shape, AttentionDims, MultiHeadLayout, SelfAttentionBuilder};
use learning_rs::llm::config::ModelConfig;
use learning_rs::llm::embedding::{check_sequence_length, check_token_ids, positional_column};
use learning_rs::llm::error::LlmError;
use learning_rs::llm::mask::causal_mask;

#[test]
fn test_attention_from_outside() {
    let attention = SelfAttentionBuilder::new().d_model(8).d_k(4).build();
    assert!(attention.is_ok());
}

#[test]
fn test_builder_pattern() {
    let attention = SelfAttentionBuilder::new()
        .d_model(8)
        .d_k(4)
        .d_v(6)
        .build()
        .unwrap();

    assert_eq!(attention.d_model, 8);
    assert_eq!(attention.d_k, 4);
    assert_eq!(attention.d_v, 6);
}

#[test]
fn builder_defaults_key_and_value_widths_to_model_width() {
    let dims = SelfAttentionBuilder::new().d_model(12).build().unwrap();
    assert_eq!(dims, AttentionDims { d_model: 12, d_k: 12, d_v: 12 });
    let dims = SelfAttentionBuilder::default().d_v(3).d_model(5).build().unwrap();
    assert_eq!(dims, AttentionDims { d_model: 5, d_k: 5, d_v: 3 });
}

#[test]
fn builder_without_model_width_fails() {
    assert!(SelfAttentionBuilder::new().d_k(4).d_v(4).build().is_err());
    assert!(SelfAttentionBuilder::new().build().is_err());
}

#[test]
fn attention_parameter_count() {
    let dims = AttentionDims { d_model: 4, d_k: 4, d_v: 5 };
    assert_eq!(dims.num_parameters(), 16 + 16 + 20);
    let dims = AttentionDims { d_model: 8, d_k: 2, d_v: 3 };
    assert_eq!(dims.num_parameters(), 16 + 16 + 24);
}

#[test]
fn multi_head_layout_with_indivisible_width_is_a_configuration_error() {
    assert_eq!(MultiHeadLayout::new(10, 3), Err(LlmError::ConfigurationError));
    assert_eq!(MultiHeadLayout::new(8, 0), Err(LlmError::ConfigurationError));
}

#[test]
fn multi_head_layout_splits_the_width_evenly() {
    let layout = MultiHeadLayout::new(8, 4).unwrap();
    assert_eq!(layout.head_dim, 2);
    assert_eq!(layout.head_dims(), AttentionDims { d_model: 8, d_k: 2, d_v: 2 });
    assert_eq!(layout.head_columns(0), (0, 2));
    assert_eq!(layout.head_columns(3), (6, 8));
}

#[test]
fn head_columns_cover_the_model_width_for_any_head_count() {
    for num_heads in [1usize, 2, 4, 8, 16] {
        let layout = MultiHeadLayout::new(16, num_heads).unwrap();
        let mut next = 0;
        for h in 0..num_heads {
            let (start, end) = layout.head_columns(h);
            assert_eq!(start, next);
            assert_eq!(end - start, layout.head_dim);
            next = end;
        }
        assert_eq!(next, 16);
    }
}

#[test]
fn mask_of_the_wrong_shape_is_a_configuration_error() {
    assert_eq!(check_mask_shape(3, 3, 3), Ok(()));
    assert_eq!(check_mask_shape(3, 3, 2), Err(LlmError::ConfigurationError));
    assert_eq!(check_mask_shape(3, 4, 3), Err(LlmError::ConfigurationError));
}

#[test]
fn causal_mask_blocks_exactly_the_future() {
    let mask = causal_mask(3);
    assert_eq!(
        mask,
        vec![
            vec![false, true, true],
            vec![false, false, true],
            vec![false, false, false],
        ]
    );
    assert!(causal_mask(0).is_empty());
    let big = causal_mask(10);
    for i in 0..10 {
        for j in 0..10 {
            assert_eq!(big[i][j], j > i);
        }
    }
}

#[test]
fn model_config_round_trip_scenario() {
    let config = ModelConfig::new(100, 16, 50, 2, 4, 32).unwrap();
    assert_eq!(config.vocab_size, 100);
    assert_eq!(config.num_blocks, 2);
    let tokens: Vec<usize> = (0..10).map(|i| i % 100).collect();
    assert_eq!(config.check_tokens(&tokens), Ok(()));
    let layout = config.head_layout();
    assert_eq!(layout.head_dim, 4);
    assert_eq!(layout.num_heads, 4);
}

#[test]
fn model_config_rejects_bad_sizes() {
    assert_eq!(ModelConfig::new(100, 10, 50, 2, 3, 32), Err(LlmError::ConfigurationError));
    assert_eq!(ModelConfig::new(0, 16, 50, 2, 4, 32), Err(LlmError::ConfigurationError));
    assert_eq!(ModelConfig::new(100, 16, 50, 2, 0, 32), Err(LlmError::ConfigurationError));
    assert_eq!(ModelConfig::new(100, 16, 0, 2, 4, 32), Err(LlmError::ConfigurationError));
}

#[test]
fn sequence_one_past_the_maximum_is_too_long() {
    let config = ModelConfig::new(100, 16, 50, 2, 4, 32).unwrap();
    let tokens = vec![1usize; 51];
    assert_eq!(
        config.check_tokens(&tokens),
        Err(LlmError::SequenceTooLong { len: 51, max_seq_len: 50 })
    );
    let tokens = vec![1usize; 50];
    assert_eq!(config.check_tokens(&tokens), Ok(()));
}

#[test]
fn too_long_is_reported_before_a_bad_id() {
    let config = ModelConfig::new(10, 4, 2, 1, 2, 8).unwrap();
    assert_eq!(
        config.check_tokens(&[99, 99, 99]),
        Err(LlmError::SequenceTooLong { len: 3, max_seq_len: 2 })
    );
}

#[test]
fn first_id_out_of_range_is_reported() {
    assert_eq!(check_token_ids(&[10, 2, 99, 50], 100), Ok(()));
    assert_eq!(
        check_token_ids(&[10, 100, 2, 150], 100),
        Err(LlmError::IndexOutOfRange { position: 1, token_id: 100 })
    );
    assert_eq!(check_token_ids(&[], 1), Ok(()));
    let config = ModelConfig::new(5, 4, 8, 1, 2, 8).unwrap();
    assert_eq!(
        config.check_tokens(&[0, 4, 5]),
        Err(LlmError::IndexOutOfRange { position: 2, token_id: 5 })
    );
}

#[test]
fn sequence_length_check() {
    assert_eq!(check_sequence_length(20, 50), Ok(()));
    assert_eq!(check_sequence_length(50, 50), Ok(()));
    assert_eq!(
        check_sequence_length(51, 50),
        Err(LlmError::SequenceTooLong { len: 51, max_seq_len: 50 })
    );
}

#[test]
fn positional_columns_pair_sine_and_cosine() {
    assert_eq!(positional_column(0), (0, true));
    assert_eq!(positional_column(1), (0, false));
    assert_eq!(positional_column(2), (2, true));
    assert_eq!(positional_column(3), (2, false));
    assert_eq!(positional_column(15), (14, false));
}
