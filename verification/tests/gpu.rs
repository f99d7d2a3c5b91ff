use airplane::gpu::{
    DeviceLimits, ExperimentalFeatures, GpuContext, MemoryHints, PowerPreference, SetupError, Trace,
};
use airplane::resources::{
    bind_group_plan, buffer_plan, flip, layout_plan, storage_entry, uniform_entry, BindGroupId,
    BindingKind, BoundBuffer, BufferId, LayoutId, Stages,
};
use wgpu::Features;

#[test]
fn everything_required_and_the_optional_that_is_there() {
    let required = Features::TIMESTAMP_QUERY;
    let optional = Features::SHADER_F16 | Features::DEPTH_CLIP_CONTROL;
    let available = Features::TIMESTAMP_QUERY | Features::SHADER_F16 | Features::CLIP_DISTANCES;
    let context = GpuContext::new(required, optional);
    let request = context.request_device(Some(available)).unwrap().features;
    assert_eq!(request, Features::TIMESTAMP_QUERY | Features::SHADER_F16);
    assert!(available.contains(request));
}

#[test]
fn features_of_both_words() {
    // One feature of the web standard and one of the native extensions.
    let web = Features::TIMESTAMP_QUERY;
    let native = Features::TIMESTAMP_QUERY_INSIDE_ENCODERS;
    let context = GpuContext::new(web, native);
    assert_eq!(context.request_device(Some(web | native)).unwrap().features, web | native);
    assert_eq!(context.request_device(Some(web)).unwrap().features, web);
    match context.request_device(Some(native)) {
        Err(SetupError::MissingFeatures { missing }) => assert_eq!(missing, web),
        _ => panic!("a required feature is missing"),
    }
}

#[test]
fn only_the_missing_features_are_named() {
    let required = Features::TIMESTAMP_QUERY | Features::SHADER_F16;
    let context = GpuContext::new(required, Features::empty());
    match context.request_device(Some(Features::SHADER_F16)) {
        Err(SetupError::MissingFeatures { missing }) => {
            assert_eq!(missing, Features::TIMESTAMP_QUERY)
        }
        _ => panic!("a required feature is missing"),
    }
}

#[test]
fn nothing_required_is_always_there() {
    let context = GpuContext::new(Features::empty(), Features::empty());
    let asked = |has: Features| context.request_device(Some(has)).unwrap().features;
    assert_eq!(asked(Features::empty()), Features::empty());
    assert_eq!(asked(Features::all()), Features::empty());
}

#[test]
fn no_adapter_and_no_device() {
    let context = GpuContext::new(Features::empty(), Features::empty());
    assert!(matches!(context.request_device(None), Err(SetupError::NoAdapter)));
    assert!(matches!(context.finish(false), Err(SetupError::DeviceFailed)));
    assert!(context.finish(true).is_ok());
}

#[test]
fn what_is_asked_for_besides_features() {
    let context = GpuContext::new(Features::empty(), Features::empty());
    let adapter = context.request_adapter();
    assert_eq!(adapter.power_preference, PowerPreference::HighPerformance);
    assert!(!adapter.force_fallback);
    let device = context.request_device(Some(Features::empty())).unwrap();
    assert_eq!(device.label, "supah nice graphics device");
    assert_eq!(device.limits, DeviceLimits::OfAdapter);
    assert_eq!(device.memory_hints, MemoryHints::Performance);
    assert_eq!(device.experimental, ExperimentalFeatures::Disabled);
    assert_eq!(device.trace, Trace::Off);
}

const COMPUTE: Stages = Stages { vertex: false, fragment: false, compute: true };

#[test]
fn layout_entries() {
    let storage = storage_entry(3, true, COMPUTE);
    assert_eq!(storage.binding, 3);
    assert_eq!(storage.visibility, COMPUTE);
    assert_eq!(storage.kind, BindingKind::Storage { read_only: true });
    let uniform = uniform_entry(2, COMPUTE);
    assert_eq!(uniform.binding, 2);
    assert_eq!(uniform.kind, BindingKind::Uniform);
}

#[test]
fn layouts() {
    let all = [
        (LayoutId::AgentPass, "agent pass bgl", 4),
        (LayoutId::DiffusePass, "diffuse pass bgl", 3),
        (LayoutId::InitPass, "init pass bgl", 2),
        (LayoutId::TrailDraw, "trail render bgl", 3),
        (LayoutId::AgentDraw, "agent render bgl", 2),
    ];
    for (id, label, slots) in all {
        let plan = layout_plan(id);
        assert_eq!(plan.id, id);
        assert_eq!(plan.label, label);
        assert_eq!(plan.entries.len(), slots);
        for (i, entry) in plan.entries.iter().enumerate() {
            assert_eq!(entry.binding as usize, i);
            let writable = entry.kind == BindingKind::Storage { read_only: false };
            assert!(!(writable && entry.visibility.vertex));
        }
    }
    let diffuse = layout_plan(LayoutId::DiffusePass);
    assert_eq!(diffuse.entries[0].kind, BindingKind::Storage { read_only: true });
    assert_eq!(diffuse.entries[1].kind, BindingKind::Storage { read_only: false });
    assert_eq!(diffuse.entries[2].kind, BindingKind::Uniform);
}

#[test]
fn bind_groups() {
    let b = BindGroupId::AgentPass { half: 1 };
    let plan = bind_group_plan(b);
    assert_eq!(plan.label, "agents B->A");
    assert_eq!(plan.layout, LayoutId::AgentPass);
    assert_eq!(
        plan.entries,
        vec![
            BoundBuffer { binding: 0, buffer: BufferId::Agents { half: 1 } },
            BoundBuffer { binding: 1, buffer: BufferId::Agents { half: 0 } },
            BoundBuffer { binding: 2, buffer: BufferId::Params },
            BoundBuffer { binding: 3, buffer: BufferId::Trail { half: 1 } },
        ]
    );
    let d = bind_group_plan(BindGroupId::DiffusePass { half: 0 });
    assert_eq!(d.label, "diffuse A->B");
    assert_eq!(d.entries[0].buffer, BufferId::Trail { half: 0 });
    assert_eq!(d.entries[1].buffer, BufferId::Trail { half: 1 });
    let i = bind_group_plan(BindGroupId::InitPass);
    assert_eq!(i.label, "init agents A");
    assert_eq!(i.entries[0].buffer, BufferId::Agents { half: 0 });
    assert_eq!(i.entries[1].buffer, BufferId::Params);
    let t = bind_group_plan(BindGroupId::TrailDraw { half: 1 });
    assert_eq!(t.label, "trail B");
    assert_eq!(t.entries[0].buffer, BufferId::Camera);
    assert_eq!(t.entries[1].buffer, BufferId::Trail { half: 1 });
    assert_eq!(t.entries[2].buffer, BufferId::Params);
    let a = bind_group_plan(BindGroupId::AgentDraw { half: 0 });
    assert_eq!(a.label, "agents A");
    assert_eq!(a.entries[1].buffer, BufferId::Agents { half: 0 });
}

#[test]
fn bind_groups_fit_their_layouts() {
    let ids = [
        BindGroupId::AgentPass { half: 0 },
        BindGroupId::AgentPass { half: 1 },
        BindGroupId::DiffusePass { half: 0 },
        BindGroupId::DiffusePass { half: 1 },
        BindGroupId::InitPass,
        BindGroupId::TrailDraw { half: 0 },
        BindGroupId::TrailDraw { half: 1 },
        BindGroupId::AgentDraw { half: 0 },
        BindGroupId::AgentDraw { half: 1 },
    ];
    for id in ids {
        let group = bind_group_plan(id);
        let layout = layout_plan(group.layout);
        assert_eq!(group.entries.len(), layout.entries.len());
        for (bound, slot) in group.entries.iter().zip(&layout.entries) {
            assert_eq!(bound.binding, slot.binding);
            let usage = buffer_plan(bound.buffer, 10, [4, 4]).usage;
            match slot.kind {
                BindingKind::Uniform => assert!(usage.uniform),
                BindingKind::Storage { .. } => assert!(usage.storage),
            }
        }
        for i in 0..group.entries.len() {
            for j in 0..i {
                assert_ne!(group.entries[i].buffer, group.entries[j].buffer);
            }
        }
    }
}

#[test]
fn buffer_sizes() {
    let size = |id| buffer_plan(id, 10_000_000, [2048, 1024]).size;
    assert_eq!(size(BufferId::Agents { half: 0 }), 240_000_000);
    assert_eq!(size(BufferId::Trail { half: 1 }), 2048 * 1024 * 16);
    assert_eq!(size(BufferId::Params), 80);
    assert_eq!(size(BufferId::Camera), 112);
    assert_eq!(buffer_plan(BufferId::Agents { half: 0 }, u32::MAX, [1, 1]).size, 24 * 0xffff_ffff);
}

#[test]
fn halves_flip() {
    assert_eq!(flip(0), 1);
    assert_eq!(flip(1), 0);
}
