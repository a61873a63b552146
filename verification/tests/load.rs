use coffee::graphics::gpu::{Gpu, Limits};
use coffee::graphics::{Canvas, Color};
use coffee::load::Task;
use coffee::{AllocationFailure, Error};

fn context() -> Gpu {
    Gpu::new(Limits { max_dimension: 256, max_texels: 1 << 16 })
}

#[test]
fn task_calls_its_function_with_the_context() {
    let mut gpu = context();
    let task = Task::using_gpu(|gpu: &mut Gpu| {
        let mut canvas = Canvas::new(gpu, 3, 4)?;
        canvas.as_target(gpu).clear(Color::red());
        Ok(canvas)
    });
    assert_eq!(gpu.surface_count(), 0);
    let canvas = task.run(&mut gpu).unwrap();
    assert_eq!(gpu.surface_count(), 1);
    assert_eq!(canvas.texel(&gpu, 2, 3), Some(Color::red()));
}

#[test]
fn task_hands_on_what_its_function_gives() {
    let mut gpu = context();
    let count = Task::using_gpu(|gpu: &mut Gpu| Ok(gpu.surface_count()));
    assert_eq!(count.run(&mut gpu), Ok(0));
    let failing = Task::using_gpu(|_: &mut Gpu| -> Result<u8, Error> {
        Err(Error::AllocationError(AllocationFailure::OutOfMemory))
    });
    assert_eq!(failing.run(&mut gpu), Err(Error::AllocationError(AllocationFailure::OutOfMemory)));
    assert_eq!(gpu.surface_count(), 0);
}

#[test]
fn tasks_run_in_the_order_they_are_run_in() {
    let mut gpu = context();
    let first = Canvas::load(8, 8);
    let second = Canvas::load(16, 16);
    let large = second.run(&mut gpu).unwrap();
    let small = first.run(&mut gpu).unwrap();
    assert_eq!((large.width(), small.width()), (16, 8));
    assert_eq!(gpu.surface_count(), 2);
    assert_eq!(gpu.texels_in_use(), 64 + 256);
    let mut large = large;
    large.as_target(&mut gpu).clear(Color::red());
    assert_eq!(small.texel(&gpu, 0, 0), Some(Color::transparent()));
    assert_eq!(large.texel(&gpu, 15, 15), Some(Color::red()));
}

#[test]
fn load_beyond_memory_fails_when_run() {
    let mut gpu = Gpu::new(Limits { max_dimension: 256, max_texels: 100 });
    let task = Canvas::load(11, 10);
    let failed = task.run(&mut gpu);
    assert_eq!(failed.err(), Some(Error::AllocationError(AllocationFailure::OutOfMemory)));
    assert_eq!(gpu.texels_in_use(), 0);
    assert!(Canvas::load(10, 10).run(&mut gpu).is_ok());
}
