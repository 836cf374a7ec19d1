use rusty_gl::shader::{log_capacity, pipeline_stages, uniform_name};
use rusty_gl::shapes::corner_colors;
use rusty_gl::vector::{Vector2, Vector3, Vector4};
use rusty_gl::vertices::{DrawCall, EBO, VAO};
use rusty_gl::windows::{FRAGMENT_SHADER, VERTEX_SHADER};
use rusty_gl::{Color, ShaderError, ShaderSource, ShaderStage, WindowBuilder};

#[test]
fn vector2_accessors_and_widening() {
    let v = Vector2::new(3u32, 4u32);
    assert_eq!(v.x(), 3);
    assert_eq!(v.y(), 4);
    let v3 = v.as_vector3();
    assert_eq!((v3.x(), v3.y(), v3.z()), (3, 4, 0));
    let v4 = v.as_vector4();
    assert_eq!(v4.components(), (&3, &4, &0, &0));
}

#[test]
fn vector3_widening() {
    let v = Vector3::new(1i32, -2, 5);
    assert_eq!(v.as_vector4(), Vector4::new(1, -2, 5, 0));
    let c: Color<u8> = Color::new(255, 128, 0);
    assert_eq!(c.x(), 255);
}

#[test]
fn vector_arithmetic() {
    let a = Vector2::new(1u32, 2);
    let b = Vector2::new(10u32, 20);
    assert_eq!(a + b, Vector2::new(11, 22));
    assert_eq!(b - a, Vector2::new(9, 18));
    assert_eq!(a * 3, Vector2::new(3, 6));
    let mut m = a;
    m.add_assign(b);
    assert_eq!(m, Vector2::new(11, 22));
    m.sub_assign(a);
    assert_eq!(m, b);
    m.mul_assign(2);
    assert_eq!(m, Vector2::new(20, 40));

    let p = Vector3::new(1i32, 2, 3);
    let q = Vector3::new(-1i32, 5, 7);
    assert_eq!(p + q, Vector3::new(0, 7, 10));
    assert_eq!(p - q, Vector3::new(2, -3, -4));
    assert_eq!(q * -2, Vector3::new(2, -10, -14));
    let mut r = p;
    r.add_assign(q);
    r.sub_assign(p);
    r.mul_assign(3);
    assert_eq!(r, Vector3::new(-3, 15, 21));

    let s = Vector4::new(1u8, 2, 3, 4);
    let t = Vector4::new(4u8, 3, 2, 1);
    assert_eq!(s + t, Vector4::new(5, 5, 5, 5));
    assert_eq!(s * 2, Vector4::new(2, 4, 6, 8));
    assert_eq!((s + t) - s, t);
    let mut u = s;
    u.add_assign(t);
    u.sub_assign(t);
    u.mul_assign(10);
    assert_eq!(u, Vector4::new(10, 20, 30, 40));
}

#[test]
fn vector4_components_mut() {
    let mut v = Vector4::new(1u32, 2, 3, 4);
    {
        let (x, _y, z, w) = v.components_mut();
        *x = 10;
        *z = 30;
        *w += 1;
    }
    assert_eq!(v, Vector4::new(10, 2, 30, 5));
}

#[test]
fn ebo_counts_its_indices() {
    let indices = vec![0u32, 1, 2, 1, 2, 3];
    let ebo = EBO::new(7, Some(&indices));
    assert_eq!(ebo.len(), 6);
    assert_eq!(ebo.id(), 7);
    let empty = EBO::new(8, None);
    assert_eq!(empty.len(), 0);
}

#[test]
fn vao_draw_picks_the_call() {
    let vao = VAO::new(3);
    assert_eq!(vao.id(), 3);
    assert_eq!(vao.draw(4, 6, true), DrawCall::Elements { mode: 4, count: 6 });
    assert_eq!(vao.draw(5, 72, false), DrawCall::Arrays { mode: 5, first: 0, count: 72 });
}

#[test]
fn pipeline_needs_a_shader() {
    let src = Some(ShaderSource::String("void main() {}"));
    assert_eq!(pipeline_stages(&None, &None), Err(ShaderError::NoShaderInput));
    assert_eq!(ShaderError::NoShaderInput.message(), "No shader input given");
    assert_eq!(pipeline_stages(&src, &None), Ok(vec![ShaderStage::Vertex]));
    assert_eq!(pipeline_stages(&None, &src), Ok(vec![ShaderStage::Fragment]));
    assert_eq!(
        pipeline_stages(&src, &Some(ShaderSource::File("frag.glsl"))),
        Ok(vec![ShaderStage::Vertex, ShaderStage::Fragment])
    );
}

#[test]
fn log_capacity_needs_a_positive_length() {
    assert_eq!(log_capacity(12, ShaderError::LinkLogUnavailable), Ok(12));
    assert_eq!(
        log_capacity(0, ShaderError::CompilationLogUnavailable),
        Err(ShaderError::CompilationLogUnavailable)
    );
    assert_eq!(
        log_capacity(-3, ShaderError::LinkLogUnavailable),
        Err(ShaderError::LinkLogUnavailable)
    );
    assert_eq!(
        ShaderError::LinkLogUnavailable.message(),
        "Can't access program link log"
    );
}

#[test]
fn uniform_names_are_zero_terminated() {
    assert_eq!(uniform_name("value"), Some(b"value\0".to_vec()));
    assert_eq!(uniform_name(""), Some(vec![0]));
    assert_eq!(uniform_name("bad\0name"), None);
    assert_eq!(uniform_name("é"), Some(vec![0xc3, 0xa9, 0]));
}

#[test]
fn window_builder_defaults_and_setters() {
    let b = WindowBuilder::default();
    assert_eq!(b.title, "Window");
    assert_eq!((b.width, b.height), (400, 400));
    assert!(!b.fullscreen && !b.resizable);
    assert_eq!(b.vertex_shader, ShaderSource::String(VERTEX_SHADER));
    assert_eq!(b.fragment_shader, ShaderSource::String(FRAGMENT_SHADER));

    let b = b
        .dimensions(400, 350)
        .title("Testing Window")
        .fullscreen(true)
        .resizable(true)
        .vertex_shader(ShaderSource::File("v.glsl"))
        .fragment_shader(ShaderSource::File("f.glsl"));
    assert_eq!(b.title, "Testing Window");
    assert_eq!((b.width, b.height), (400, 350));
    assert!(b.fullscreen && b.resizable);
    assert_eq!(b.vertex_shader, ShaderSource::File("v.glsl"));
    assert_eq!(b.fragment_shader, ShaderSource::File("f.glsl"));
}

#[test]
fn corner_colors_follow_the_count_given() {
    let white = Color::new(1u8, 1, 1);
    let red = Color::new(9u8, 0, 0);
    assert_eq!(corner_colors(None, white), vec![white; 4]);
    assert_eq!(corner_colors(Some(vec![red]), white), vec![red; 4]);
    let four = vec![red, white, red, white];
    assert_eq!(corner_colors(Some(four.clone()), white), four);
    assert_eq!(corner_colors(Some(vec![red, red]), white), vec![white; 4]);
    assert_eq!(corner_colors(Some(Vec::new()), white), vec![white; 4]);
}
