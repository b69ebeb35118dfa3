use repo_ingest::embedding::{
    cache_file_name, cached_embedding, normalize_embedding, parse_hf_embedding,
    truncate_for_embedding, EmbeddingReply, EmbeddingShape, JsonCell, JsonItem, EMBEDDING_DIM,
};
use repo_ingest::error::AppError;
use std::borrow::Cow;

fn failure(message: &str) -> Result<EmbeddingShape<f32>, AppError> {
    Err(AppError::HuggingFace(message.to_string()))
}

fn row(values: &[f32]) -> JsonItem<f32> {
    JsonItem::Row(values.iter().map(|v| JsonCell::Number(*v)).collect())
}

#[test]
fn response_of_length_700_is_zero_padded() {
    let values: Vec<f32> = (0..700).map(|i| i as f32 + 0.5).collect();
    let out = normalize_embedding(values.clone(), 0.0);
    assert_eq!(out.len(), 768);
    assert_eq!(&out[..700], &values[..]);
    assert!(out[700..].iter().all(|v| *v == 0.0));
}

#[test]
fn response_of_length_900_is_truncated() {
    let values: Vec<f32> = (0..900).map(|i| i as f32).collect();
    let out = normalize_embedding(values.clone(), 0.0);
    assert_eq!(out.len(), 768);
    assert_eq!(&out[..], &values[..768]);
}

#[test]
fn response_of_the_dimension_is_unchanged() {
    let values: Vec<f32> = (0..768).map(|i| -(i as f32)).collect();
    assert_eq!(normalize_embedding(values.clone(), 0.0), values);
    assert_eq!(EMBEDDING_DIM, 768);
}

#[test]
fn empty_response_becomes_all_zero() {
    assert_eq!(normalize_embedding(Vec::<f32>::new(), 0.0), vec![0.0f32; 768]);
    assert_eq!(normalize_embedding(vec![7u8], 9), {
        let mut v = vec![9u8; 768];
        v[0] = 7;
        v
    });
}

#[test]
fn computed_embedding_is_a_cache_hit() {
    let computed = normalize_embedding(vec![1.5f32, 2.5], 0.0);
    let first = computed.clone();
    let second = cached_embedding(Some(computed)).expect("a hit");
    assert_eq!(first, second);
}

#[test]
fn cache_misses() {
    assert_eq!(cached_embedding::<f32>(None), None);
    assert_eq!(cached_embedding(Some(vec![0.0f32; 767])), None);
    assert_eq!(cached_embedding(Some(vec![0.0f32; 769])), None);
    assert_eq!(cached_embedding(Some(Vec::<f32>::new())), None);
}

#[test]
fn cache_entry_is_named_by_hash() {
    assert_eq!(cache_file_name("abc123"), "abc123.json");
}

#[test]
fn truncation_keeps_short_input_borrowed() {
    let out = truncate_for_embedding("hello", 5);
    assert!(matches!(out, Cow::Borrowed("hello")));
    let out = truncate_for_embedding("", 0);
    assert!(matches!(out, Cow::Borrowed("")));
}

#[test]
fn truncation_cuts_after_max_chars() {
    let out = truncate_for_embedding("hello world", 5);
    assert!(matches!(out, Cow::Owned(_)));
    assert_eq!(out, "hello");
    assert_eq!(truncate_for_embedding("héllo", 2), "hé");
    assert_eq!(truncate_for_embedding("abc", 0), "");
}

#[test]
fn flat_vector_is_used_directly() {
    let reply = EmbeddingReply::Items(vec![
        JsonItem::Number(0.25f32),
        JsonItem::Number(-1.0),
        JsonItem::Number(3.0),
    ]);
    assert_eq!(
        parse_hf_embedding(&reply),
        Ok(EmbeddingShape::Flat(vec![0.25, -1.0, 3.0]))
    );
}

#[test]
fn rows_are_handed_out_by_columns() {
    let reply = EmbeddingReply::Items(vec![row(&[1.0, 2.0, 3.0]), row(&[4.0, 5.0, 6.0])]);
    assert_eq!(
        parse_hf_embedding(&reply),
        Ok(EmbeddingShape::Pooled {
            columns: vec![vec![1.0, 4.0], vec![2.0, 5.0], vec![3.0, 6.0]],
            rows: 2,
        })
    );
}

#[test]
fn rows_of_different_lengths() {
    let reply = EmbeddingReply::Items(vec![
        row(&[]),
        row(&[1.0, 2.0]),
        row(&[3.0]),
        row(&[4.0, 5.0, 6.0]),
    ]);
    assert_eq!(
        parse_hf_embedding(&reply),
        Ok(EmbeddingShape::Pooled {
            columns: vec![vec![1.0, 3.0, 4.0], vec![2.0, 5.0]],
            rows: 4,
        })
    );
    let empty_rows = EmbeddingReply::<f32>::Items(vec![row(&[]), row(&[])]);
    assert_eq!(
        parse_hf_embedding(&empty_rows),
        Ok(EmbeddingShape::Pooled { columns: vec![], rows: 2 })
    );
}

#[test]
fn empty_list_is_an_error() {
    assert_eq!(
        parse_hf_embedding(&EmbeddingReply::<f32>::Items(vec![])),
        failure("empty embedding response")
    );
}

#[test]
fn non_number_in_flat_vector_is_an_error() {
    let reply = EmbeddingReply::Items(vec![JsonItem::Number(1.0f32), JsonItem::Other]);
    assert_eq!(parse_hf_embedding(&reply), failure("invalid embedding value"));
    let reply = EmbeddingReply::Items(vec![JsonItem::Number(1.0f32), row(&[1.0])]);
    assert_eq!(parse_hf_embedding(&reply), failure("invalid embedding value"));
}

#[test]
fn non_row_among_rows_is_an_error() {
    let reply = EmbeddingReply::Items(vec![row(&[1.0]), JsonItem::Number(2.0)]);
    assert_eq!(parse_hf_embedding(&reply), failure("invalid embedding row"));
    let reply = EmbeddingReply::Items(vec![row(&[1.0]), JsonItem::Other]);
    assert_eq!(parse_hf_embedding(&reply), failure("invalid embedding row"));
}

#[test]
fn non_number_in_row_is_an_error() {
    let reply = EmbeddingReply::Items(vec![
        row(&[1.0]),
        JsonItem::Row(vec![JsonCell::Number(1.0f32), JsonCell::Other]),
        JsonItem::Other,
    ]);
    assert_eq!(parse_hf_embedding(&reply), failure("invalid embedding value"));
}

#[test]
fn first_flaw_decides_the_error() {
    let reply = EmbeddingReply::Items(vec![
        row(&[1.0]),
        JsonItem::Other,
        JsonItem::Row(vec![JsonCell::<f32>::Other]),
    ]);
    assert_eq!(parse_hf_embedding(&reply), failure("invalid embedding row"));
}

#[test]
fn unsupported_first_item_is_an_error() {
    let reply = EmbeddingReply::Items(vec![JsonItem::Other, JsonItem::Number(1.0f32)]);
    assert_eq!(
        parse_hf_embedding(&reply),
        failure("unsupported embedding response format")
    );
}

#[test]
fn error_object_fails_with_its_text() {
    let reply = EmbeddingReply::<f32>::Error("Model is loading".to_string());
    assert_eq!(parse_hf_embedding(&reply), failure("Model is loading"));
}

#[test]
fn other_shapes_are_unexpected() {
    assert_eq!(
        parse_hf_embedding(&EmbeddingReply::<f32>::Other),
        failure("unexpected embedding response")
    );
}
