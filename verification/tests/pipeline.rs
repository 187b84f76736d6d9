use trace_boot::pipeline::plan;
use trace_boot::pipeline::Backend;
use trace_boot::pipeline::Pipeline;
use trace_boot::pipeline::Wrapping;

#[test]
fn local_sink_without_policy_is_simple() {
    let pipeline: Pipeline<u32> = plan(true, None);
    assert_eq!(pipeline, Pipeline { backend: Backend::LocalSink, wrapping: Wrapping::Simple });
}

#[test]
fn local_sink_with_policy_batches_by_it() {
    let pipeline = plan(true, Some(512u32));
    assert_eq!(pipeline, Pipeline { backend: Backend::LocalSink, wrapping: Wrapping::Batch(512) });
}

#[test]
fn remote_collector_without_policy_is_simple() {
    let pipeline: Pipeline<u32> = plan(false, None);
    assert_eq!(pipeline, Pipeline { backend: Backend::RemoteCollector, wrapping: Wrapping::Simple });
}

#[test]
fn remote_collector_with_policy_batches_by_it() {
    let pipeline = plan(false, Some("policy"));
    assert_eq!(
        pipeline,
        Pipeline { backend: Backend::RemoteCollector, wrapping: Wrapping::Batch("policy") }
    );
}

#[test]
fn policy_is_carried_unchanged() {
    let policy = opentelemetry_sdk::trace::BatchConfigBuilder::default()
        .with_max_queue_size(64)
        .with_max_export_batch_size(16)
        .build();
    match plan(true, Some(policy)).wrapping {
        Wrapping::Batch(carried) => assert_eq!(format!("{:?}", carried), {
            let same = opentelemetry_sdk::trace::BatchConfigBuilder::default()
                .with_max_queue_size(64)
                .with_max_export_batch_size(16)
                .build();
            format!("{:?}", same)
        }),
        Wrapping::Simple => panic!("a policy was given"),
    }
}

#[test]
fn only_the_simple_local_sink_needs_no_runtime() {
    assert!(!plan::<u32>(true, None).needs_runtime());
    assert!(plan(true, Some(1u32)).needs_runtime());
    assert!(plan::<u32>(false, None).needs_runtime());
    assert!(plan(false, Some(1u32)).needs_runtime());
}
