use tensor_quantize::{
    assemble, assemble_flat, collect_results, merge_last_wins, plan, plan_from_extensions,
    Container, Route, TensorFailure, UsageError,
};

fn s(x: &str) -> String {
    x.to_string()
}

fn lookup<'a, T>(v: &'a [(String, T)], name: &str) -> Vec<&'a T> {
    v.iter().filter(|(n, _)| n == name).map(|(_, t)| t).collect()
}

#[test]
fn merge_later_file_wins() {
    let first = vec![(s("w"), 1u32), (s("a"), 10)];
    let second = vec![(s("b"), 20u32), (s("w"), 2)];
    let merged = merge_last_wins(vec![first, second]);
    assert_eq!(merged.len(), 3);
    assert_eq!(lookup(&merged, "w"), vec![&2]);
    assert_eq!(lookup(&merged, "a"), vec![&10]);
    assert_eq!(lookup(&merged, "b"), vec![&20]);
}

#[test]
fn merge_reversed_order_keeps_other_version() {
    let first = vec![(s("w"), 1u32)];
    let second = vec![(s("w"), 2u32)];
    let merged = merge_last_wins(vec![second, first]);
    assert_eq!(merged, vec![(s("w"), 1)]);
}

#[test]
fn merge_within_one_file_last_wins() {
    let merged = merge_last_wins(vec![vec![(s("x"), 1u8), (s("x"), 3u8)]]);
    assert_eq!(merged, vec![(s("x"), 3)]);
}

#[test]
fn merge_of_nothing_is_empty() {
    let merged: Vec<(String, u8)> = merge_last_wins(vec![]);
    assert!(merged.is_empty());
    let merged: Vec<(String, u8)> = merge_last_wins(vec![vec![], vec![]]);
    assert!(merged.is_empty());
}

#[test]
fn merge_names_are_the_union() {
    let merged = merge_last_wins(vec![
        vec![(s("a"), 0u8), (s("b"), 1)],
        vec![(s("c"), 2u8)],
        vec![(s("a"), 3u8), (s("d"), 4)],
    ]);
    let mut names: Vec<&str> = merged.iter().map(|(n, _)| n.as_str()).collect();
    names.sort();
    assert_eq!(names, vec!["a", "b", "c", "d"]);
    assert_eq!(lookup(&merged, "a"), vec![&3]);
}

#[test]
fn usage_no_inputs() {
    assert_eq!(plan(&[], "out.gguf"), Err(UsageError::NoInputs));
    assert_eq!(plan(&[], "out.safetensors"), Err(UsageError::NoInputs));
    assert_eq!(plan_from_extensions(0, &None, &None), Err(UsageError::NoInputs));
}

#[test]
fn usage_flat_tensor_output() {
    assert_eq!(
        plan(&[s("in.safetensors")], "out.safetensors"),
        Err(UsageError::FlatTensorOutput)
    );
    assert_eq!(plan(&[s("in.gguf")], "dir/out.safetensors"), Err(UsageError::FlatTensorOutput));
}

#[test]
fn usage_two_container_inputs() {
    assert_eq!(
        plan(&[s("a.gguf"), s("b.gguf")], "out.gguf"),
        Err(UsageError::ContainerInputCount(2))
    );
    assert_eq!(
        plan_from_extensions(3, &Some(s("gguf")), &Some(s("gguf"))),
        Err(UsageError::ContainerInputCount(3))
    );
}

#[test]
fn routes_for_valid_requests() {
    assert_eq!(plan(&[s("a.safetensors")], "out.gguf"), Ok(Route::FlatTensors));
    assert_eq!(
        plan(&[s("a.safetensors"), s("b.safetensors"), s("c.gguf")], "out.gguf"),
        Ok(Route::FlatTensors)
    );
    assert_eq!(plan(&[s("model.gguf")], "out.gguf"), Ok(Route::Container));
    assert_eq!(plan(&[s("model.gguf")], "out"), Ok(Route::Container));
    // only the exact flat-tensor extension selects the merging route
    assert_eq!(plan(&[s("a.safetensor")], "out.gguf"), Ok(Route::Container));
}

#[test]
fn usage_messages() {
    assert_eq!(UsageError::NoInputs.message(), "no specified input files");
    assert!(UsageError::FlatTensorOutput.message().contains("safetensors"));
    assert!(UsageError::ContainerInputCount(2).message().contains("single"));
}

#[test]
fn collect_all_ok_keeps_names_in_order() {
    let results: Vec<(String, Result<u8, String>)> =
        vec![(s("a"), Ok(1)), (s("b"), Ok(2)), (s("c"), Ok(3))];
    let out = collect_results(results).unwrap();
    assert_eq!(out, vec![(s("a"), 1), (s("b"), 2), (s("c"), 3)]);
}

#[test]
fn collect_single_failure_names_that_tensor() {
    let results: Vec<(String, Result<u8, String>)> = vec![
        (s("a"), Ok(1)),
        (s("b"), Ok(2)),
        (s("bad"), Err(s("encode failed"))),
        (s("d"), Ok(4)),
    ];
    let err: TensorFailure<String> = collect_results(results).unwrap_err();
    assert_eq!(err.name, "bad");
    assert_eq!(err.error, "encode failed");
}

#[test]
fn collect_reports_first_failure() {
    let results: Vec<(String, Result<u8, u8>)> =
        vec![(s("a"), Ok(1)), (s("x"), Err(7)), (s("y"), Err(8))];
    let err = collect_results(results).unwrap_err();
    assert_eq!(err.name, "x");
    assert_eq!(err.error, 7);
}

#[test]
fn collect_empty() {
    let results: Vec<(String, Result<u8, u8>)> = vec![];
    assert_eq!(collect_results(results).unwrap(), vec![]);
}

#[test]
fn container_metadata_is_kept() {
    let metadata = vec![(s("general.name"), 5i64), (s("llama.block_count"), 32)];
    let results: Vec<(String, Result<u8, u8>)> = vec![(s("t"), Ok(9))];
    let c: Container<i64, u8> = assemble(metadata.clone(), results).ok().unwrap();
    assert_eq!(c.metadata, metadata);
    assert_eq!(c.tensors, vec![(s("t"), 9)]);
}

#[test]
fn flat_container_has_no_metadata() {
    let results: Vec<(String, Result<u8, u8>)> = vec![(s("t"), Ok(9)), (s("u"), Ok(1))];
    let c: Container<i64, u8> = assemble_flat(results).ok().unwrap();
    assert!(c.metadata.is_empty());
    assert_eq!(c.tensors.len(), 2);
}

#[test]
fn container_failure_yields_no_container() {
    let results: Vec<(String, Result<u8, u8>)> = vec![(s("t"), Ok(9)), (s("u"), Err(1))];
    let r: Result<Container<i64, u8>, TensorFailure<u8>> = assemble(vec![(s("k"), 1)], results);
    match r {
        Ok(_) => panic!("a failing tensor must abort the conversion"),
        Err(f) => assert_eq!(f.name, "u"),
    }
}

#[test]
fn merge_of_disjoint_files_ignores_order() {
    let a = vec![(s("a"), 1u8), (s("b"), 2)];
    let b = vec![(s("c"), 3u8)];
    let mut ab = merge_last_wins(vec![a.clone(), b.clone()]);
    let mut ba = merge_last_wins(vec![b, a]);
    ab.sort();
    ba.sort();
    assert_eq!(ab, ba);
}
