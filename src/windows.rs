//! Settings of a window with a drawing context.
use vstd::prelude::*;
use crate::shader::ShaderSource;

verus! {

/// The vertex shader of a window that is given none: it places 2D shapes,
/// whose positions are in pixels, by their center, angle and scale.
pub const VERTEX_SHADER: &'static str = "
    #version 330 core
    layout (location = 0) in vec3 vPos;
    layout (location = 1) in vec3 vColor;
    layout (location = 2) in vec2 vTexCoord;

    uniform uvec2 resolution;
    uniform vec3 center;
    uniform float angle;
    uniform float scale;

    out vec3 outColor;
    out vec2 texCoord;

    void main() {
        vec2 p = vPos.xy * scale;
        float c = cos(angle);
        float s = sin(angle);
        vec2 turned = vec2(p.x * c - p.y * s, p.x * s + p.y * c);
        vec2 pixel = turned + center.xy;
        vec2 ndc = pixel / vec2(resolution) * vec2(2) - vec2(1);
        gl_Position = vec4(ndc, vPos.z, 1);
        outColor = vColor;
        texCoord = vTexCoord;
    }
";

/// The fragment shader of a window that is given none: each fragment takes
/// the color of its vertices.
pub const FRAGMENT_SHADER: &'static str = "
    #version 330 core
    in vec3 outColor;
    in vec2 texCoord;
    out vec4 FragColor;

    void main() {
        FragColor = vec4(outColor, 1);
    }
";

/// The settings from which a window is built.
pub struct WindowBuilder<'a> {
    pub title: String,
    pub width: u32,
    pub height: u32,
    pub fullscreen: bool,
    pub resizable: bool,
    pub vertex_shader: ShaderSource<'a>,
    pub fragment_shader: ShaderSource<'a>,
}

/// A 400 by 400 window titled "Window", neither fullscreen nor resizable,
/// drawn with the default shaders.
impl<'a> Default for WindowBuilder<'a> {
    fn default() -> (r: WindowBuilder<'a>)
        ensures
            r.title@ == "Window"@,
            r.width == 400,
            r.height == 400,
            !r.fullscreen,
            !r.resizable,
            r.vertex_shader == ShaderSource::String(VERTEX_SHADER),
            r.fragment_shader == ShaderSource::String(FRAGMENT_SHADER),
    {
        WindowBuilder {
            title: "Window".to_owned(),
            width: 400,
            height: 400,
            fullscreen: false,
            resizable: false,
            vertex_shader: ShaderSource::String(VERTEX_SHADER),
            fragment_shader: ShaderSource::String(FRAGMENT_SHADER),
        }
    }
}

impl<'a> WindowBuilder<'a> {
    pub fn title(self, title: &str) -> (r: WindowBuilder<'a>)
        ensures
            r.title@ == title@,
            r.width == self.width,
            r.height == self.height,
            r.fullscreen == self.fullscreen,
            r.resizable == self.resizable,
            r.vertex_shader == self.vertex_shader,
            r.fragment_shader == self.fragment_shader,
    {
        WindowBuilder { title: title.to_owned(), ..self }
    }

    pub fn dimensions(self, width: u32, height: u32) -> (r: WindowBuilder<'a>)
        ensures
            r.title == self.title,
            r.width == width,
            r.height == height,
            r.fullscreen == self.fullscreen,
            r.resizable == self.resizable,
            r.vertex_shader == self.vertex_shader,
            r.fragment_shader == self.fragment_shader,
    {
        WindowBuilder { width, height, ..self }
    }

    pub fn fullscreen(self, fullscreen: bool) -> (r: WindowBuilder<'a>)
        ensures
            r.title == self.title,
            r.width == self.width,
            r.height == self.height,
            r.fullscreen == fullscreen,
            r.resizable == self.resizable,
            r.vertex_shader == self.vertex_shader,
            r.fragment_shader == self.fragment_shader,
    {
        WindowBuilder { fullscreen, ..self }
    }

    pub fn resizable(self, resizable: bool) -> (r: WindowBuilder<'a>)
        ensures
            r.title == self.title,
            r.width == self.width,
            r.height == self.height,
            r.fullscreen == self.fullscreen,
            r.resizable == resizable,
            r.vertex_shader == self.vertex_shader,
            r.fragment_shader == self.fragment_shader,
    {
        WindowBuilder { resizable, ..self }
    }

    pub fn vertex_shader(self, vertex_shader: ShaderSource<'a>) -> (r: WindowBuilder<'a>)
        ensures
            r.title == self.title,
            r.width == self.width,
            r.height == self.height,
            r.fullscreen == self.fullscreen,
            r.resizable == self.resizable,
            r.vertex_shader == vertex_shader,
            r.fragment_shader == self.fragment_shader,
    {
        WindowBuilder { vertex_shader, ..self }
    }

    pub fn fragment_shader(self, fragment_shader: ShaderSource<'a>) -> (r: WindowBuilder<'a>)
        ensures
            r.title == self.title,
            r.width == self.width,
            r.height == self.height,
            r.fullscreen == self.fullscreen,
            r.resizable == self.resizable,
            r.vertex_shader == self.vertex_shader,
            r.fragment_shader == fragment_shader,
    {
        WindowBuilder { fragment_shader, ..self }
    }
}

} // verus!
