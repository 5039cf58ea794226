//! A mock driver that hands out handles from a monotonically increasing
//! counter and records every create and destroy call, driving a full
//! bootstrap/teardown cycle through the library's planners and lifecycle
//! manager.

use vkboot::caps::{Extent2D, SurfaceCapabilities};
use vkboot::commands::allocate_commands;
use vkboot::device::{select_physical_device, select_queue_family, QUEUE_COMPUTE, QUEUE_GRAPHICS};
use vkboot::format::{required_surface_format, SurfaceFormat};
use vkboot::lifecycle::{Lifecycle, Resource, ResourceKind};
use vkboot::render::build_render_targets;
use vkboot::swapchain::{plan_image_views, plan_swapchain};
use vkboot::BootstrapError;

struct MockDriver {
    next_handle: u64,
    created: Vec<(ResourceKind, u64)>,
    destroyed: Vec<(ResourceKind, u64)>,
    queue_families: Vec<u32>,
    capabilities: SurfaceCapabilities,
    formats: Vec<SurfaceFormat>,
    /// How many images the driver actually delivers (may exceed the request).
    delivered_images: usize,
}

impl MockDriver {
    fn new(formats: Vec<SurfaceFormat>) -> MockDriver {
        MockDriver {
            next_handle: 1,
            created: Vec::new(),
            destroyed: Vec::new(),
            queue_families: vec![QUEUE_COMPUTE, QUEUE_GRAPHICS | QUEUE_COMPUTE],
            capabilities: SurfaceCapabilities {
                min_image_count: 2,
                max_image_count: 0,
                current_extent: Extent2D { width: 640, height: 480 },
            },
            formats,
            delivered_images: 3,
        }
    }

    fn create(&mut self, kind: ResourceKind) -> u64 {
        let handle = self.next_handle;
        self.next_handle += 1;
        self.created.push((kind, handle));
        handle
    }

    fn destroy(&mut self, kind: ResourceKind, handle: u64) {
        self.destroyed.push((kind, handle));
    }

    fn create_count(&self, kind: ResourceKind) -> usize {
        self.created.iter().filter(|(k, _)| *k == kind).count()
    }

    fn destroy_count(&self, kind: ResourceKind) -> usize {
        self.destroyed.iter().filter(|(k, _)| *k == kind).count()
    }
}

/// Runs the whole bootstrap against the mock driver, recording each created
/// object, then tears everything down in the order the lifecycle manager
/// dictates.
fn bootstrap_and_teardown(driver: &mut MockDriver) -> Result<(), BootstrapError> {
    let mut lifecycle = Lifecycle::new();

    let mut record = |driver: &mut MockDriver, lifecycle: &mut Lifecycle, kind: ResourceKind| {
        let handle = driver.create(kind);
        assert!(lifecycle.can_record(&kind), "creation order violated");
        lifecycle.record(Resource { kind, handle });
    };

    record(driver, &mut lifecycle, ResourceKind::Instance);
    record(driver, &mut lifecycle, ResourceKind::Diagnostics);
    record(driver, &mut lifecycle, ResourceKind::Surface);

    select_physical_device(1)?;
    let family = select_queue_family(&driver.queue_families)?;
    assert_eq!(family, 1);
    record(driver, &mut lifecycle, ResourceKind::Device);

    let required = required_surface_format();
    let caps = driver.capabilities;
    let formats = driver.formats.clone();
    let plan = plan_swapchain(&caps, &formats, &required, 1024, 768)?;
    record(driver, &mut lifecycle, ResourceKind::Swapchain);

    let views = plan_image_views(driver.delivered_images, plan.format.format);
    for _ in &views {
        record(driver, &mut lifecycle, ResourceKind::ImageView);
    }

    let (_pool, _alloc) = allocate_commands(family as u32);
    record(driver, &mut lifecycle, ResourceKind::CommandPool);

    let view_handles: Vec<u64> = driver
        .created
        .iter()
        .filter(|(k, _)| *k == ResourceKind::ImageView)
        .map(|(_, h)| *h)
        .collect();
    let (_render_pass, framebuffers) =
        build_render_targets(&view_handles, plan.format.format, plan.extent);
    record(driver, &mut lifecycle, ResourceKind::RenderPass);
    for _ in &framebuffers {
        record(driver, &mut lifecycle, ResourceKind::Framebuffer);
    }

    for r in lifecycle.teardown() {
        driver.destroy(r.kind, r.handle);
    }
    Ok(())
}

#[test]
fn full_cycle_destroys_in_exact_reverse_creation_order() {
    let mut driver = MockDriver::new(vec![required_surface_format()]);
    bootstrap_and_teardown(&mut driver).unwrap();

    let mut reversed = driver.created.clone();
    reversed.reverse();
    assert_eq!(driver.destroyed, reversed);
}

#[test]
fn full_cycle_releases_every_handle_one_to_one() {
    let mut driver = MockDriver::new(vec![required_surface_format()]);
    bootstrap_and_teardown(&mut driver).unwrap();

    for kind in [
        ResourceKind::Instance,
        ResourceKind::Diagnostics,
        ResourceKind::Surface,
        ResourceKind::Device,
        ResourceKind::Swapchain,
        ResourceKind::ImageView,
        ResourceKind::CommandPool,
        ResourceKind::RenderPass,
        ResourceKind::Framebuffer,
    ] {
        assert_eq!(driver.create_count(kind), driver.destroy_count(kind));
    }
    assert_eq!(driver.create_count(ResourceKind::ImageView), 3);
    assert_eq!(driver.create_count(ResourceKind::Framebuffer), 3);

    let mut created: Vec<(ResourceKind, u64)> = driver.created.clone();
    let mut destroyed: Vec<(ResourceKind, u64)> = driver.destroyed.clone();
    created.sort();
    destroyed.sort();
    assert_eq!(created, destroyed);
}

#[test]
fn format_mismatch_fails_before_any_swapchain_creation() {
    let alien = SurfaceFormat { format: 9, color_space: 7 };
    let mut driver = MockDriver::new(vec![alien]);
    let result = bootstrap_and_teardown(&mut driver);
    assert_eq!(result, Err(BootstrapError::FormatNotSupported));
    assert_eq!(driver.create_count(ResourceKind::Swapchain), 0);
    assert_eq!(driver.create_count(ResourceKind::ImageView), 0);
    assert_eq!(driver.create_count(ResourceKind::Framebuffer), 0);
}

#[test]
fn lifecycle_refuses_out_of_order_creation() {
    let mut lifecycle = Lifecycle::new();
    assert!(lifecycle.can_record(&ResourceKind::Instance));
    lifecycle.record(Resource { kind: ResourceKind::Instance, handle: 1 });
    lifecycle.record(Resource { kind: ResourceKind::Device, handle: 2 });

    // The surface depends on the instance and must precede the device.
    assert!(!lifecycle.can_record(&ResourceKind::Surface));
    // A second logical device is not part of this bootstrap.
    assert!(!lifecycle.can_record(&ResourceKind::Device));
    // Collection kinds may repeat.
    lifecycle.record(Resource { kind: ResourceKind::ImageView, handle: 3 });
    assert!(lifecycle.can_record(&ResourceKind::ImageView));
}

#[test]
fn second_teardown_finds_nothing() {
    let mut lifecycle = Lifecycle::new();
    lifecycle.record(Resource { kind: ResourceKind::Instance, handle: 1 });
    lifecycle.record(Resource { kind: ResourceKind::Surface, handle: 2 });
    assert_eq!(lifecycle.created_count(), 2);
    let first = lifecycle.teardown();
    assert_eq!(first.len(), 2);
    assert_eq!(first[0].handle, 2);
    assert_eq!(first[1].handle, 1);
    let second = lifecycle.teardown();
    assert!(second.is_empty());
    assert_eq!(lifecycle.created_count(), 0);
}

#[test]
fn created_log_reports_creation_order() {
    let mut lifecycle = Lifecycle::new();
    lifecycle.record(Resource { kind: ResourceKind::Instance, handle: 10 });
    lifecycle.record(Resource { kind: ResourceKind::Surface, handle: 11 });
    let log = lifecycle.created_log();
    assert_eq!(log.len(), 2);
    assert_eq!(log[0], Resource { kind: ResourceKind::Instance, handle: 10 });
    assert_eq!(log[1], Resource { kind: ResourceKind::Surface, handle: 11 });
}
