use coffee::graphics::gpu::{Drawable, Gpu, Instance, Limits};
use coffee::graphics::{Color, Point, Rectangle, Size, Target, Transformation, Unit};
use coffee::{AllocationFailure, Error};

fn limits() -> Limits {
    Limits { max_dimension: 1024, max_texels: 1 << 20 }
}

fn surface(gpu: &mut Gpu, width: u16, height: u16, color: Color) -> Drawable {
    let drawable = gpu.create_drawable_texture(width, height).unwrap();
    gpu.clear(drawable.target(), color);
    drawable
}

/// A target of `drawable` on which drawing is stored the way up it is drawn.
fn upright<'a>(gpu: &'a mut Gpu, drawable: &Drawable) -> Target<'a> {
    Target::with_transformation(
        gpu,
        *drawable.target(),
        drawable.texture().width(),
        drawable.texture().height(),
        Drawable::render_transformation(),
    )
}

fn texel_for_texel(texture: &Drawable, x: i32, y: i32) -> Instance {
    let width = texture.texture().width();
    let height = texture.texture().height();
    Instance {
        source: Rectangle { x: 0, y: 0, width, height },
        x_unit: Unit::one_in(width),
        y_unit: Unit::one_in(height),
        translation: Point { x, y },
        scale: Size { width: width as u32, height: height as u32 },
    }
}

/// A surface of `width` by `height` texels, the texel in column `x` of row
/// `y` colored `(x, y, 0)`.
fn gradient(gpu: &mut Gpu, width: u16, height: u16) -> Drawable {
    let picture = surface(gpu, width, height, Color::black());
    for y in 0..height {
        for x in 0..width {
            let dot = surface(gpu, 1, 1, Color::rgb(x as u8, y as u8, 0));
            let instance = texel_for_texel(&dot, x as i32, y as i32);
            upright(gpu, &picture).draw_texture_quads(dot.texture(), &[instance]);
        }
    }
    picture
}

fn rows(gpu: &Gpu, drawable: &Drawable) -> Vec<Vec<Color>> {
    let texture = drawable.texture();
    (0..texture.height())
        .map(|y| (0..texture.width()).map(|x| gpu.texel(texture, x, y).unwrap()).collect())
        .collect()
}

#[test]
fn context_starts_empty() {
    let gpu = Gpu::new(limits());
    assert_eq!(gpu.limits(), limits());
    assert_eq!(gpu.surface_count(), 0);
    assert_eq!(gpu.texels_in_use(), 0);
    assert_eq!(gpu.draw_calls(), 0);
}

#[test]
fn drawable_texture_is_one_surface() {
    let mut gpu = Gpu::new(limits());
    let drawable = gpu.create_drawable_texture(7, 5).unwrap();
    assert_eq!(drawable.texture().width(), 7);
    assert_eq!(drawable.texture().height(), 5);
    assert_eq!(drawable.target().width(), 7);
    assert_eq!(drawable.target().height(), 5);
    assert_eq!(gpu.surface_count(), 1);
    assert_eq!(gpu.texels_in_use(), 35);
    gpu.clear(drawable.target(), Color::red());
    assert_eq!(gpu.texel(drawable.texture(), 6, 4), Some(Color::red()));
    assert_eq!(gpu.texel(drawable.texture(), 7, 4), None);
    assert_eq!(gpu.texel(drawable.texture(), 6, 5), None);
    let copy = drawable.clone();
    gpu.clear(copy.target(), Color::black());
    assert_eq!(gpu.texel(drawable.texture(), 0, 0), Some(Color::black()));
}

#[test]
fn allocation_fails_at_the_limits() {
    let mut gpu = Gpu::new(Limits { max_dimension: 8, max_texels: 100 });
    assert!(gpu.create_drawable_texture(8, 8).is_ok());
    assert_eq!(
        gpu.create_drawable_texture(9, 1).err(),
        Some(Error::AllocationError(AllocationFailure::UnsupportedSize))
    );
    assert_eq!(
        gpu.create_drawable_texture(0, 1).err(),
        Some(Error::AllocationError(AllocationFailure::UnsupportedSize))
    );
    assert_eq!(
        gpu.create_drawable_texture(5, 8).err(),
        Some(Error::AllocationError(AllocationFailure::OutOfMemory))
    );
    assert_eq!(gpu.surface_count(), 1);
    assert_eq!(gpu.texels_in_use(), 64);
    assert!(gpu.create_drawable_texture(6, 6).is_ok());
    assert_eq!(gpu.texels_in_use(), 100);
}

#[test]
fn render_transformation_exchanges_up_and_down() {
    assert_eq!(
        Drawable::render_transformation(),
        Transformation { mirrors_x: false, mirrors_y: true }
    );
}

#[test]
fn plain_projection_stores_rows_upside_down() {
    let mut gpu = Gpu::new(limits());
    let picture = gradient(&mut gpu, 2, 3);
    assert_eq!(
        rows(&gpu, &picture),
        vec![
            vec![Color::rgb(0, 0, 0), Color::rgb(1, 0, 0)],
            vec![Color::rgb(0, 1, 0), Color::rgb(1, 1, 0)],
            vec![Color::rgb(0, 2, 0), Color::rgb(1, 2, 0)],
        ]
    );
    let stored = surface(&mut gpu, 2, 3, Color::black());
    {
        let mut target = Target::with_transformation(
            &mut gpu,
            *stored.target(),
            2,
            3,
            Transformation::identity(),
        );
        target.draw_texture_quads(picture.texture(), &[texel_for_texel(&picture, 0, 0)]);
    }
    assert_eq!(
        rows(&gpu, &stored),
        vec![
            vec![Color::rgb(0, 2, 0), Color::rgb(1, 2, 0)],
            vec![Color::rgb(0, 1, 0), Color::rgb(1, 1, 0)],
            vec![Color::rgb(0, 0, 0), Color::rgb(1, 0, 0)],
        ]
    );
}

#[test]
fn mirrored_projection_stores_columns_backwards() {
    let mut gpu = Gpu::new(limits());
    let picture = gradient(&mut gpu, 3, 1);
    let stored = surface(&mut gpu, 4, 1, Color::black());
    {
        let mut target = Target::with_transformation(
            &mut gpu,
            *stored.target(),
            4,
            1,
            Transformation { mirrors_x: true, mirrors_y: true },
        );
        target.draw_texture_quads(picture.texture(), &[texel_for_texel(&picture, 0, 0)]);
    }
    assert_eq!(
        rows(&gpu, &stored),
        vec![vec![Color::black(), Color::rgb(2, 0, 0), Color::rgb(1, 0, 0), Color::rgb(0, 0, 0)]]
    );
}

#[test]
fn later_instances_are_drawn_over_earlier_ones() {
    let mut gpu = Gpu::new(limits());
    let glass = surface(&mut gpu, 1, 1, Color { r: 200, g: 100, b: 50, a: 128 });
    let screen = surface(&mut gpu, 3, 1, Color::black());
    let wide = Instance {
        source: Rectangle { x: 0, y: 0, width: 1, height: 1 },
        x_unit: Unit::one_in(1),
        y_unit: Unit::one_in(1),
        translation: Point { x: 0, y: 0 },
        scale: Size { width: 2, height: 1 },
    };
    let narrow = Instance {
        translation: Point { x: 1, y: 0 },
        scale: Size { width: 1, height: 1 },
        ..wide
    };
    upright(&mut gpu, &screen).draw_texture_quads(glass.texture(), &[wide, narrow]);
    assert_eq!(gpu.draw_calls(), 1);
    let once = Color { r: 100, g: 50, b: 25, a: 255 };
    let twice = Color { r: 150, g: 75, b: 38, a: 255 };
    assert_eq!(rows(&gpu, &screen), vec![vec![once, twice, Color::black()]]);
}

#[test]
fn order_of_instances_decides_what_is_on_top() {
    let mut gpu = Gpu::new(limits());
    let picture = gradient(&mut gpu, 2, 1);
    let left = Instance {
        source: Rectangle { x: 0, y: 0, width: 1, height: 1 },
        x_unit: Unit::one_in(2),
        y_unit: Unit::one_in(1),
        translation: Point { x: 0, y: 0 },
        scale: Size { width: 1, height: 1 },
    };
    let right = Instance { source: Rectangle { x: 1, y: 0, width: 1, height: 1 }, ..left };
    let screen = surface(&mut gpu, 1, 1, Color::black());
    upright(&mut gpu, &screen).draw_texture_quads(picture.texture(), &[left, right]);
    assert_eq!(gpu.texel(screen.texture(), 0, 0), Some(Color::rgb(1, 0, 0)));
    upright(&mut gpu, &screen).draw_texture_quads(picture.texture(), &[right, left]);
    assert_eq!(gpu.texel(screen.texture(), 0, 0), Some(Color::rgb(0, 0, 0)));
}

#[test]
fn no_instances_change_nothing_but_the_count() {
    let mut gpu = Gpu::new(limits());
    let picture = surface(&mut gpu, 1, 1, Color::red());
    let screen = surface(&mut gpu, 2, 2, Color::black());
    upright(&mut gpu, &screen).draw_texture_quads(picture.texture(), &[]);
    assert_eq!(gpu.draw_calls(), 1);
    assert_eq!(rows(&gpu, &screen), vec![vec![Color::black(); 2]; 2]);
}

#[test]
fn drawing_space_is_stretched_over_the_surface() {
    let mut gpu = Gpu::new(limits());
    let picture = gradient(&mut gpu, 2, 2);
    let screen = surface(&mut gpu, 4, 4, Color::black());
    {
        let mut target = Target::with_transformation(
            &mut gpu,
            *screen.target(),
            2,
            2,
            Drawable::render_transformation(),
        );
        let instance =
            Instance { translation: Point { x: 1, y: 0 }, ..texel_for_texel(&picture, 0, 0) };
        target.draw_texture_quads(picture.texture(), &[instance]);
    }
    let black = Color::black();
    assert_eq!(
        rows(&gpu, &screen),
        vec![
            vec![black, black, Color::rgb(0, 0, 0), Color::rgb(0, 0, 0)],
            vec![black, black, Color::rgb(0, 0, 0), Color::rgb(0, 0, 0)],
            vec![black, black, Color::rgb(0, 1, 0), Color::rgb(0, 1, 0)],
            vec![black, black, Color::rgb(0, 1, 0), Color::rgb(0, 1, 0)],
        ]
    );
}

#[test]
fn drawing_space_without_extent_shows_nothing() {
    let mut gpu = Gpu::new(limits());
    let picture = surface(&mut gpu, 2, 2, Color::red());
    let screen = surface(&mut gpu, 2, 2, Color::black());
    for (width, height) in [(0, 2), (2, 0), (0, 0)] {
        let mut target = Target::with_transformation(
            &mut gpu,
            *screen.target(),
            width,
            height,
            Drawable::render_transformation(),
        );
        target.draw_texture_quads(picture.texture(), &[texel_for_texel(&picture, 0, 0)]);
    }
    assert_eq!(rows(&gpu, &screen), vec![vec![Color::black(); 2]; 2]);
}

#[test]
fn source_past_the_edge_repeats_the_edge() {
    let mut gpu = Gpu::new(limits());
    let picture = gradient(&mut gpu, 2, 1);
    let screen = surface(&mut gpu, 4, 1, Color::black());
    let instance = Instance {
        source: Rectangle { x: 1, y: 0, width: 3, height: 1 },
        x_unit: Unit::one_in(2),
        y_unit: Unit::one_in(1),
        translation: Point { x: 0, y: 0 },
        scale: Size { width: 3, height: 1 },
    };
    upright(&mut gpu, &screen).draw_texture_quads(picture.texture(), &[instance]);
    let edge = Color::rgb(1, 0, 0);
    assert_eq!(rows(&gpu, &screen), vec![vec![edge, edge, edge, Color::black()]]);
}

#[test]
fn unit_of_the_whole_texture() {
    let mut gpu = Gpu::new(limits());
    let picture = gradient(&mut gpu, 3, 2);
    let screen = surface(&mut gpu, 3, 2, Color::black());
    let instance = Instance {
        source: Rectangle { x: 0, y: 0, width: 1, height: 1 },
        x_unit: Unit::one_in(1),
        y_unit: Unit::one_in(1),
        translation: Point { x: 0, y: 0 },
        scale: Size { width: 3, height: 2 },
    };
    upright(&mut gpu, &screen).draw_texture_quads(picture.texture(), &[instance]);
    assert_eq!(rows(&gpu, &screen), rows(&gpu, &picture));
}

#[test]
fn picture_is_reduced_by_the_nearest_texel() {
    let mut gpu = Gpu::new(limits());
    let picture = gradient(&mut gpu, 4, 4);
    let screen = surface(&mut gpu, 2, 2, Color::black());
    let instance =
        Instance { scale: Size { width: 2, height: 2 }, ..texel_for_texel(&picture, 0, 0) };
    upright(&mut gpu, &screen).draw_texture_quads(picture.texture(), &[instance]);
    assert_eq!(
        rows(&gpu, &screen),
        vec![
            vec![Color::rgb(1, 1, 0), Color::rgb(3, 1, 0)],
            vec![Color::rgb(1, 3, 0), Color::rgb(3, 3, 0)],
        ]
    );
}

#[test]
fn draw_call_on_the_sampled_surface_is_dropped() {
    let mut gpu = Gpu::new(limits());
    let picture = gradient(&mut gpu, 2, 2);
    let before = rows(&gpu, &picture);
    let calls = gpu.draw_calls();
    upright(&mut gpu, &picture)
        .draw_texture_quads(picture.texture(), &[texel_for_texel(&picture, 1, 1)]);
    assert_eq!(gpu.draw_calls(), calls);
    assert_eq!(rows(&gpu, &picture), before);
}

#[test]
fn handles_of_another_context_do_nothing() {
    let mut gpu = Gpu::new(limits());
    let mut other = Gpu::new(limits());
    let here = surface(&mut gpu, 2, 2, Color::black());
    let same_place = surface(&mut other, 3, 3, Color::red());
    let elsewhere = surface(&mut other, 2, 2, Color::red());
    gpu.clear(same_place.target(), Color::red());
    gpu.clear(elsewhere.target(), Color::red());
    upright(&mut gpu, &here)
        .draw_texture_quads(same_place.texture(), &[texel_for_texel(&same_place, 0, 0)]);
    upright(&mut gpu, &here)
        .draw_texture_quads(elsewhere.texture(), &[texel_for_texel(&elsewhere, 0, 0)]);
    upright(&mut gpu, &elsewhere)
        .draw_texture_quads(here.texture(), &[texel_for_texel(&here, 0, 0)]);
    assert_eq!(gpu.draw_calls(), 0);
    assert_eq!(gpu.texel(same_place.texture(), 0, 0), None);
    assert_eq!(gpu.texel(elsewhere.texture(), 0, 0), None);
    assert_eq!(rows(&gpu, &here), vec![vec![Color::black(); 2]; 2]);
    assert_eq!(gpu.surface_count(), 1);
}

#[test]
fn target_keeps_its_view_and_projection() {
    let mut gpu = Gpu::new(limits());
    let screen = surface(&mut gpu, 2, 2, Color::black());
    let picture = surface(&mut gpu, 1, 1, Color::red());
    let mut target = Target::with_transformation(
        &mut gpu,
        *screen.target(),
        5,
        9,
        Transformation { mirrors_x: true, mirrors_y: false },
    );
    let view = target.view;
    let projection = target.projection;
    assert_eq!((projection.width, projection.height), (5, 9));
    assert_eq!(projection.transformation, Transformation { mirrors_x: true, mirrors_y: false });
    target.clear(Color::red());
    target.draw_texture_quads(picture.texture(), &[texel_for_texel(&picture, 0, 0)]);
    assert_eq!(target.view, view);
    assert_eq!(target.projection, projection);
}
