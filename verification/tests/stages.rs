use compute_stages::builder::{BuildAction, BuildStep, DeviceReply, StageBuilder};
use compute_stages::camera_rays::CameraRays;
use compute_stages::declaration::{BindingEntry, PushConstantRange, ResourceKind};
use compute_stages::error::{Mismatch, StageError};
use compute_stages::pool::{PoolRange, PoolSizing};
use compute_stages::ray_triangle_intersector::RayTriangleIntersector;
use compute_stages::shader::ShaderBinary;
use compute_stages::stage::{
    BufferHandle, ComputeStage, DescriptorWrite, DispatchBundle, Handle,
};
use compute_stages::vertex_skinner::{VertexSkinner, PUSH_CONSTANT_BYTES};

fn binary() -> ShaderBinary {
    ShaderBinary { words: vec![0x0723_0203, 0x0001_0000] }
}

fn uniform(id: u64) -> BufferHandle {
    BufferHandle { id, kind: ResourceKind::UniformBuffer }
}

fn storage(id: u64) -> BufferHandle {
    BufferHandle { id, kind: ResourceKind::StorageBuffer }
}

fn storage_slots(count: u32) -> Vec<BindingEntry> {
    (0..count).map(|slot| BindingEntry { slot, kind: ResourceKind::StorageBuffer }).collect()
}

/// Runs `builder` against a device that creates whatever it is asked for and
/// names the objects 1, 2, ... in the order of their creation.
fn build(builder: StageBuilder) -> ComputeStage {
    let mut builder = builder;
    let mut next_id = 1;
    loop {
        let reply = DeviceReply::Created { handle: Handle { id: next_id } };
        next_id += 1;
        match builder.advance(reply) {
            Ok(BuildStep::Pending(next)) => builder = next,
            Ok(BuildStep::Built(stage)) => return stage,
            Err(e) => panic!("the device created everything, but the build failed: {:?}", e),
        }
    }
}

#[test]
fn camera_rays_declare_a_uniform_and_a_storage_buffer() {
    let declaration = CameraRays::declaration();
    assert_eq!(
        declaration.entries(),
        &vec![
            BindingEntry { slot: 0, kind: ResourceKind::UniformBuffer },
            BindingEntry { slot: 1, kind: ResourceKind::StorageBuffer },
        ]
    );
    assert_eq!(declaration.push_constants(), None);
}

#[test]
fn camera_rays_pool_has_one_descriptor_of_each_kind() {
    let mut builder = CameraRays::builder(binary());
    for id in 1..=2 {
        builder = match builder.advance(DeviceReply::Created { handle: Handle { id } }) {
            Ok(BuildStep::Pending(next)) => next,
            other => panic!("the build should go on, but gave {:?}", other),
        };
    }
    assert_eq!(
        builder.next_action(),
        BuildAction::CreatePool {
            max_sets: 2,
            ranges: vec![
                PoolRange { kind: ResourceKind::UniformBuffer, count: 1 },
                PoolRange { kind: ResourceKind::StorageBuffer, count: 1 },
            ]
        }
    );
    let stage = build(CameraRays::builder(binary()));
    assert_eq!(stage.pool(), PoolSizing { max_sets: 2, uniform_buffers: 1, storage_buffers: 1 });
}

#[test]
fn camera_rays_pipeline_layout_has_no_push_constants() {
    let mut builder = CameraRays::builder(binary());
    for id in 1..=4 {
        builder = match builder.advance(DeviceReply::Created { handle: Handle { id } }) {
            Ok(BuildStep::Pending(next)) => next,
            other => panic!("the build should go on, but gave {:?}", other),
        };
    }
    assert_eq!(
        builder.next_action(),
        BuildAction::CreatePipelineLayout { set_layout: Handle { id: 2 }, push_constants: None }
    );
}

#[test]
fn camera_rays_end_to_end_on_the_host() {
    // 1024 rays in groups of 64 make 16 work groups.
    let stage = build(CameraRays::builder(binary()));
    let mut camera_rays = CameraRays::new(stage).unwrap();
    assert!(!camera_rays.stage().is_dispatch_ready());

    let camera = uniform(100);
    let rays = storage(101);
    let batch = camera_rays.write_desc_set(camera, rays).unwrap();
    let set = Handle { id: 4 };
    assert_eq!(
        batch,
        vec![
            DescriptorWrite { set, binding: 0, array_offset: 0, buffer: camera },
            DescriptorWrite { set, binding: 1, array_offset: 0, buffer: rays },
        ]
    );
    assert_eq!(camera_rays.complete_bind(camera, rays, true), Ok(()));

    let command = camera_rays.record_dispatch([1024 / 64, 1, 1]).unwrap();
    assert_eq!(command.workgroups, [16, 1, 1]);
    assert_eq!(
        command.bundle,
        DispatchBundle {
            pipeline: Handle { id: 6 },
            layout: Handle { id: 5 },
            desc_set: Handle { id: 4 },
            push_constant_len: 0,
        }
    );
    assert!(command.push_constants.is_empty());
}

#[test]
fn camera_rays_are_not_dispatched_before_they_are_bound() {
    let stage = build(CameraRays::builder(binary()));
    let mut camera_rays = CameraRays::new(stage).unwrap();
    assert_eq!(camera_rays.record_dispatch([16, 1, 1]), Err(StageError::NotBound));
    assert_eq!(camera_rays.complete_bind(uniform(100), storage(101), false), Err(StageError::WriteRejected));
    assert_eq!(camera_rays.record_dispatch([16, 1, 1]), Err(StageError::NotBound));
    assert_eq!(camera_rays.complete_bind(uniform(100), storage(101), true), Ok(()));
    assert!(camera_rays.record_dispatch([16, 1, 1]).is_ok());
}

#[test]
fn intersector_is_not_dispatched_before_it_is_bound() {
    let stage = build(RayTriangleIntersector::builder(binary()));
    let intersector = RayTriangleIntersector::new(stage).unwrap();
    assert_eq!(intersector.record_dispatch([16, 1, 1]), Err(StageError::NotBound));
    assert_eq!(intersector.stage().dispatch_bundle(), None);
}

#[test]
fn camera_rays_want_the_uniform_buffer_first() {
    let stage = build(CameraRays::builder(binary()));
    let mut camera_rays = CameraRays::new(stage).unwrap();
    assert_eq!(
        camera_rays.write_desc_set(storage(101), uniform(100)),
        Err(StageError::BindingMismatchError { mismatch: Mismatch::BufferKind { slot: 0 } })
    );
    assert_eq!(
        camera_rays.complete_bind(uniform(100), uniform(101), true),
        Err(StageError::BindingMismatchError { mismatch: Mismatch::BufferKind { slot: 1 } })
    );
    assert!(!camera_rays.stage().is_dispatch_ready());
}

#[test]
fn camera_rays_refuse_the_stage_of_another_declaration() {
    let stage = build(RayTriangleIntersector::builder(binary()));
    assert_eq!(
        CameraRays::new(stage).unwrap_err(),
        StageError::BindingMismatchError { mismatch: Mismatch::Layout }
    );
}

#[test]
fn intersector_declares_four_storage_buffers() {
    let declaration = RayTriangleIntersector::declaration();
    assert_eq!(declaration.entries(), &storage_slots(4));
    assert_eq!(declaration.push_constants(), None);
}

#[test]
fn intersector_pool_has_four_storage_descriptors() {
    let stage = build(RayTriangleIntersector::builder(binary()));
    assert_eq!(stage.pool(), PoolSizing { max_sets: 4, uniform_buffers: 0, storage_buffers: 4 });
    assert_eq!(
        stage.pool().ranges(),
        vec![PoolRange { kind: ResourceKind::StorageBuffer, count: 4 }]
    );
}

#[test]
fn intersector_end_to_end_on_the_host() {
    let stage = build(RayTriangleIntersector::builder(binary()));
    let mut intersector = RayTriangleIntersector::new(stage).unwrap();

    let rays = storage(11);
    let triangles = storage(12);
    let hits = storage(13);
    let boxes = storage(14);
    let batch = intersector.write_desc_set(rays, triangles, hits, boxes).unwrap();
    let set = Handle { id: 4 };
    assert_eq!(
        batch,
        vec![
            DescriptorWrite { set, binding: 0, array_offset: 0, buffer: rays },
            DescriptorWrite { set, binding: 1, array_offset: 0, buffer: triangles },
            DescriptorWrite { set, binding: 2, array_offset: 0, buffer: hits },
            DescriptorWrite { set, binding: 3, array_offset: 0, buffer: boxes },
        ]
    );
    assert_eq!(intersector.complete_bind(rays, triangles, hits, boxes, true), Ok(()));
    assert_eq!(
        intersector.stage().bound_buffers(),
        Some(&vec![rays, triangles, hits, boxes])
    );

    let command = intersector.record_dispatch([16, 1, 1]).unwrap();
    assert_eq!(command.workgroups, [16, 1, 1]);
    assert_eq!(command.bundle.desc_set, set);
}

#[test]
fn intersector_refuses_a_uniform_buffer() {
    let stage = build(RayTriangleIntersector::builder(binary()));
    let intersector = RayTriangleIntersector::new(stage).unwrap();
    assert_eq!(
        intersector.write_desc_set(storage(11), storage(12), uniform(13), storage(14)),
        Err(StageError::BindingMismatchError { mismatch: Mismatch::BufferKind { slot: 2 } })
    );
}

#[test]
fn intersector_rebinds_a_new_scene() {
    let stage = build(RayTriangleIntersector::builder(binary()));
    let mut intersector = RayTriangleIntersector::new(stage).unwrap();
    assert_eq!(
        intersector.complete_bind(storage(11), storage(12), storage(13), storage(14), true),
        Ok(())
    );
    assert_eq!(
        intersector.complete_bind(storage(11), storage(22), storage(13), storage(24), true),
        Ok(())
    );
    assert_eq!(
        intersector.stage().bound_buffers(),
        Some(&vec![storage(11), storage(22), storage(13), storage(24)])
    );
}

#[test]
fn intersector_refuses_the_stage_of_another_declaration() {
    // The same slots as the intersector, but with push constants.
    let stage = build(VertexSkinner::builder(binary()));
    assert_eq!(
        RayTriangleIntersector::new(stage).unwrap_err(),
        StageError::BindingMismatchError { mismatch: Mismatch::Layout }
    );
}

#[test]
fn intersector_gives_its_stage_back() {
    let stage = build(RayTriangleIntersector::builder(binary()));
    let handles = stage.handles();
    let intersector = RayTriangleIntersector::new(stage).unwrap();
    assert_eq!(intersector.into_stage().teardown(), handles);
}

#[test]
fn skinner_declares_four_storage_buffers_and_eight_bytes() {
    assert_eq!(PUSH_CONSTANT_BYTES, 8);
    let declaration = VertexSkinner::declaration();
    assert_eq!(declaration.entries(), &storage_slots(4));
    assert_eq!(declaration.push_constants(), Some(PushConstantRange { offset: 0, len: 8 }));
    assert_eq!(declaration.push_constant_len(), 8);
}

#[test]
fn skinner_pool_has_four_storage_descriptors() {
    let stage = build(VertexSkinner::builder(binary()));
    assert_eq!(stage.pool(), PoolSizing { max_sets: 4, uniform_buffers: 0, storage_buffers: 4 });
}

#[test]
fn skinner_pipeline_layout_declares_the_push_constants() {
    let mut builder = VertexSkinner::builder(binary());
    for id in 1..=4 {
        builder = match builder.advance(DeviceReply::Created { handle: Handle { id } }) {
            Ok(BuildStep::Pending(next)) => next,
            other => panic!("the build should go on, but gave {:?}", other),
        };
    }
    assert_eq!(
        builder.next_action(),
        BuildAction::CreatePipelineLayout {
            set_layout: Handle { id: 2 },
            push_constants: Some(PushConstantRange { offset: 0, len: 8 }),
        }
    );
}

#[test]
fn skinner_binds_indices_first_and_transforms_last() {
    let stage = build(VertexSkinner::builder(binary()));
    let mut skinner = VertexSkinner::new(stage).unwrap();
    let model = storage(31);
    let vertices = storage(32);
    let triangles = storage(33);
    let indices = storage(34);
    let batch = skinner.write_desc_set(model, vertices, triangles, indices).unwrap();
    let set = Handle { id: 4 };
    assert_eq!(
        batch,
        vec![
            DescriptorWrite { set, binding: 0, array_offset: 0, buffer: indices },
            DescriptorWrite { set, binding: 1, array_offset: 0, buffer: vertices },
            DescriptorWrite { set, binding: 2, array_offset: 0, buffer: triangles },
            DescriptorWrite { set, binding: 3, array_offset: 0, buffer: model },
        ]
    );
    assert_eq!(skinner.complete_bind(model, vertices, triangles, indices, true), Ok(()));
    assert_eq!(
        skinner.stage().bound_buffers(),
        Some(&vec![indices, vertices, triangles, model])
    );
}

#[test]
fn skinner_takes_exactly_eight_bytes_of_push_constants() {
    let stage = build(VertexSkinner::builder(binary()));
    let mut skinner = VertexSkinner::new(stage).unwrap();
    assert_eq!(
        skinner.complete_bind(storage(31), storage(32), storage(33), storage(34), true),
        Ok(())
    );

    let payload = vec![0x00, 0x04, 0x00, 0x00, 0x07, 0x00, 0x00, 0x00];
    let command = skinner.record_dispatch([4, 1, 1], payload.clone()).unwrap();
    assert_eq!(command.push_constants, payload);
    assert_eq!(command.bundle.push_constant_len, 8);
    assert_eq!(command.workgroups, [4, 1, 1]);

    for len in [0usize, 1, 4, 7, 9, 16] {
        assert_eq!(
            skinner.record_dispatch([4, 1, 1], vec![0; len]),
            Err(StageError::BindingMismatchError {
                mismatch: Mismatch::PushConstantLength { expected: 8, found: len }
            })
        );
    }
}

#[test]
fn skinner_is_not_dispatched_before_it_is_bound() {
    let stage = build(VertexSkinner::builder(binary()));
    let skinner = VertexSkinner::new(stage).unwrap();
    assert_eq!(skinner.record_dispatch([4, 1, 1], vec![0; 8]), Err(StageError::NotBound));
    assert_eq!(skinner.stage().dispatch_bundle(), None);
}

#[test]
fn skinner_refuses_the_stage_of_another_declaration() {
    let stage = build(RayTriangleIntersector::builder(binary()));
    assert_eq!(
        VertexSkinner::new(stage).unwrap_err(),
        StageError::BindingMismatchError { mismatch: Mismatch::Layout }
    );
}
