use async_tensorrt::config::{
    creation_flag_bits, native_flags, profile_attach_result, BuildOption, BuilderFlag,
    NetworkDefinitionCreationFlags,
};
use async_tensorrt::engine::{shape_from_dims, DataType, TensorIoMode};
use async_tensorrt::error::{call_result, handle_result, Failure};
use async_tensorrt::execution::{Enqueue, EnqueueStep};
use async_tensorrt::lifecycle::{release_steps, EngineShare, NativeObject, Teardown};
use async_tensorrt::profile::{
    dimension_count, dimensions_from_native, shape_value_count, shape_values_from_native,
    OptimizationProfileSelector,
};

#[test]
fn io_mode_codes() {
    assert_eq!(TensorIoMode::from_i32(1), TensorIoMode::Input);
    assert_eq!(TensorIoMode::from_i32(2), TensorIoMode::Output);
    assert_eq!(TensorIoMode::from_i32(0), TensorIoMode::Neither);
    assert_eq!(TensorIoMode::from_i32(3), TensorIoMode::Neither);
    assert_eq!(TensorIoMode::from_i32(-1), TensorIoMode::Neither);
}

#[test]
fn data_type_codes() {
    assert_eq!(DataType::from_code(0), DataType::Float);
    assert_eq!(DataType::from_code(1), DataType::Half);
    assert_eq!(DataType::from_code(3), DataType::Int32);
    assert_eq!(DataType::from_code(7), DataType::Bf16);
    assert_eq!(DataType::from_code(10), DataType::Fp4);
    assert!(DataType::is_known_code(0));
    assert!(DataType::is_known_code(10));
    assert!(!DataType::is_known_code(11));
    assert!(!DataType::is_known_code(-1));
}

#[test]
fn shape_reads_leading_dimensions() {
    let d: [i64; 8] = [1, 3, 224, 224, 0, 0, 0, 0];
    assert_eq!(shape_from_dims(4, &d), vec![1usize, 3, 224, 224]);
    assert_eq!(shape_from_dims(0, &d), Vec::<usize>::new());
    assert_eq!(shape_from_dims(-1, &d), Vec::<usize>::new());
}

#[test]
fn selector_codes() {
    assert_eq!(OptimizationProfileSelector::Min.code(), 0);
    assert_eq!(OptimizationProfileSelector::Opt.code(), 1);
    assert_eq!(OptimizationProfileSelector::Max.code(), 2);
}

#[test]
fn dimension_count_limits() {
    assert_eq!(dimension_count(&[1, 3, 224, 224]), Some(4));
    assert_eq!(dimension_count(&[]), Some(0));
    assert_eq!(dimension_count(&[1; 8]), Some(8));
    assert_eq!(dimension_count(&[1; 9]), None);
    assert_eq!(shape_value_count(&[5, 6, 7]), Some(3));
}

#[test]
fn unset_dimensions_differ_from_empty() {
    let buffer = [4, 3, 224, 224, 0, 0, 0, 0];
    assert_eq!(dimensions_from_native(-1, &buffer), None);
    assert_eq!(dimensions_from_native(0, &buffer), Some(vec![]));
    assert_eq!(dimensions_from_native(4, &buffer), Some(vec![4, 3, 224, 224]));
}

#[test]
fn shape_values_decoding() {
    let values = [2, 8, 16];
    assert_eq!(shape_values_from_native(-1, None), Ok(None));
    assert_eq!(shape_values_from_native(-1, Some(&values)), Ok(None));
    assert_eq!(shape_values_from_native(2, None), Err(Failure::NullResult));
    assert_eq!(shape_values_from_native(3, Some(&values)), Ok(Some(vec![2, 8, 16])));
    assert_eq!(shape_values_from_native(0, Some(&values)), Ok(Some(vec![])));
}

#[test]
fn strict_types_flags_by_version() {
    assert_eq!(native_flags(BuildOption::StrictTypes, 8), vec![BuilderFlag::StrictTypes]);
    assert_eq!(native_flags(BuildOption::StrictTypes, 9), vec![BuilderFlag::StrictTypes]);
    assert_eq!(
        native_flags(BuildOption::StrictTypes, 10),
        vec![
            BuilderFlag::PreferPrecisionConstraints,
            BuilderFlag::DirectIo,
            BuilderFlag::RejectEmptyAlgorithms
        ]
    );
    assert_eq!(native_flags(BuildOption::Fp16, 10), vec![BuilderFlag::Fp16]);
    assert_eq!(native_flags(BuildOption::Int8, 8), vec![BuilderFlag::Int8]);
    assert_eq!(
        native_flags(BuildOption::VersionCompatible, 10),
        vec![BuilderFlag::VersionCompatible]
    );
    assert_eq!(
        native_flags(BuildOption::ExcludeLeanRuntime, 8),
        vec![BuilderFlag::ExcludeLeanRuntime]
    );
}

#[test]
fn network_creation_bits() {
    assert_eq!(creation_flag_bits(NetworkDefinitionCreationFlags::NoFlags), 0);
    assert_eq!(creation_flag_bits(NetworkDefinitionCreationFlags::ExplicitBatchSize), 1);
}

#[test]
fn profile_attach_follows_index_sign() {
    assert_eq!(profile_attach_result(0), Ok(()));
    assert_eq!(profile_attach_result(3), Ok(()));
    assert_eq!(profile_attach_result(-1), Err(Failure::NegativeIndex { index: -1 }));
    for index in [i32::MIN, -7, -1, 0, 1, i32::MAX] {
        assert_eq!(profile_attach_result(index).is_ok(), index >= 0);
    }
}

#[test]
fn call_and_handle_outcomes() {
    assert_eq!(call_result(true), Ok(()));
    assert_eq!(call_result(false), Err(Failure::CallFailed));
    assert_eq!(handle_result(true), Ok(()));
    assert_eq!(handle_result(false), Err(Failure::NullResult));
}

#[test]
fn enqueue_binds_all_then_submits() {
    let mut run = Enqueue::new(2);
    assert_eq!(run.next_step(), EnqueueStep::Bind { index: 0 });
    run.on_bind(true);
    assert_eq!(run.next_step(), EnqueueStep::Bind { index: 1 });
    run.on_bind(true);
    assert_eq!(run.next_step(), EnqueueStep::Submit);
    run.on_submit(true);
    assert_eq!(run.next_step(), EnqueueStep::Done);
}

#[test]
fn enqueue_stops_at_failed_bind() {
    let mut run = Enqueue::new(3);
    run.on_bind(true);
    run.on_bind(false);
    assert_eq!(run.next_step(), EnqueueStep::Failed { failure: Failure::CallFailed });
}

#[test]
fn enqueue_failed_submit() {
    let mut run = Enqueue::new(0);
    assert_eq!(run.next_step(), EnqueueStep::Submit);
    run.on_submit(false);
    assert_eq!(run.next_step(), EnqueueStep::Failed { failure: Failure::CallFailed });
}

#[test]
fn exclusive_release_makes_device_current_first() {
    assert_eq!(
        release_steps(1, NativeObject::Builder),
        vec![
            Teardown::MakeCurrent { device: 1 },
            Teardown::Destroy { object: NativeObject::Builder }
        ]
    );
}

fn engine_teardown(device: i32) -> Vec<Teardown> {
    vec![
        Teardown::MakeCurrent { device },
        Teardown::Destroy { object: NativeObject::Engine },
        Teardown::MakeCurrent { device },
        Teardown::Destroy { object: NativeObject::Runtime },
    ]
}

#[test]
fn engine_outlives_its_contexts() {
    let mut share = EngineShare::new(0);
    share.share();
    share.share();
    // The caller drops its engine while two contexts still hold it.
    assert!(share.release().is_empty());
    assert!(!share.is_destroyed());
    assert!(share.release().is_empty());
    assert!(!share.is_destroyed());
    assert_eq!(share.release(), engine_teardown(0));
    assert!(share.is_destroyed());
}

#[test]
fn many_contexts_survive_first_release() {
    let mut share = EngineShare::new(2);
    let (result, steps) = share.settle_contexts(&[true, true]);
    assert_eq!(result, Ok(()));
    assert!(steps.is_empty());
    assert_eq!(share.share_count(), 2);
    // The first context goes away; the second still has a live engine.
    assert!(share.release().is_empty());
    assert!(!share.is_destroyed());
    assert_eq!(share.engine_device(), 2);
    assert_eq!(share.release(), engine_teardown(2));
}

#[test]
fn many_contexts_failure_releases_created_ones() {
    let mut share = EngineShare::new(1);
    let (result, steps) = share.settle_contexts(&[true, false, true]);
    assert_eq!(result, Err(Failure::NullResult));
    let mut expected = vec![
        Teardown::MakeCurrent { device: 1 },
        Teardown::Destroy { object: NativeObject::ExecutionContext { index: 0 } },
        Teardown::MakeCurrent { device: 1 },
        Teardown::Destroy { object: NativeObject::ExecutionContext { index: 2 } },
    ];
    expected.extend(engine_teardown(1));
    assert_eq!(steps, expected);
    assert!(share.is_destroyed());
}

#[test]
fn zero_contexts_release_engine() {
    let mut share = EngineShare::new(0);
    let (result, steps) = share.settle_contexts(&[]);
    assert_eq!(result, Ok(()));
    assert_eq!(steps, engine_teardown(0));
    assert!(share.is_destroyed());
}
