use cgmath::{perspective, Deg, Matrix4, Point3, Vector3, Vector4};
use cube::camera::{Aspect, Camera, ZFAR_MILLI, ZNEAR_MILLI};

fn same_ratio(a: Aspect, b: Aspect) -> bool {
    a.width as u64 * b.height as u64 == b.width as u64 * a.height as u64
}

fn to_point(a: [i32; 3]) -> Point3<f32> {
    Point3::new(a[0] as f32, a[1] as f32, a[2] as f32)
}

fn view_projection(c: &Camera) -> Matrix4<f32> {
    let up = Vector3::new(c.up[0] as f32, c.up[1] as f32, c.up[2] as f32);
    let view = Matrix4::look_at_rh(to_point(c.eye), to_point(c.target), up);
    let aspect = c.aspect.width as f32 / c.aspect.height as f32;
    let proj = perspective(
        Deg(c.fovy as f32),
        aspect,
        c.znear as f32 / 1000.0,
        c.zfar as f32 / 1000.0,
    );
    proj * view
}

#[test]
fn new_camera_has_the_fixed_view() {
    let c = Camera::new(800, 600);
    assert_eq!(c.eye, [2, 2, 3]);
    assert_eq!(c.target, [0, 0, 0]);
    assert_eq!(c.up, [0, 1, 0]);
    assert_eq!(c.fovy, 45);
    assert_eq!((c.znear, c.zfar), (ZNEAR_MILLI, ZFAR_MILLI));
    assert_eq!(c.aspect, Aspect { width: 800, height: 600 });
}

#[test]
fn aspect_is_the_exact_ratio_for_positive_sizes() {
    let mut c = Camera::new(1, 1);
    for (w, h) in [(800u32, 600u32), (1, 1), (1920, 1080), (u32::MAX, 1), (3, 7)] {
        c.update_aspect(w, h);
        assert_eq!(c.aspect, Aspect { width: w, height: h });
        let m = view_projection(&c);
        let cols: [[f32; 4]; 4] = m.into();
        assert!(cols.iter().flatten().all(|x| x.is_finite()));
    }
}

#[test]
fn zero_height_keeps_the_previous_ratio() {
    let mut c = Camera::new(800, 600);
    c.update_aspect(1024, 0);
    assert_eq!(c.aspect, Aspect { width: 800, height: 600 });
    c.update_aspect(0, 0);
    assert_eq!(c.aspect, Aspect { width: 800, height: 600 });
    c.update_aspect(0, 300);
    assert_eq!(c.aspect, Aspect { width: 800, height: 600 });
    let cols: [[f32; 4]; 4] = view_projection(&c).into();
    assert!(cols.iter().flatten().all(|x| x.is_finite()));
}

#[test]
fn zero_height_without_valid_ratio_falls_back_to_square() {
    let c = Camera::new(800, 0);
    assert_eq!(c.aspect, Aspect { width: 1, height: 1 });
    let mut d = c;
    d.aspect = Aspect { width: 0, height: 0 };
    d.update_aspect(640, 0);
    assert_eq!(d.aspect, Aspect { width: 1, height: 1 });
}

#[test]
fn resize_to_the_same_ratio_keeps_the_ratio() {
    let mut c = Camera::new(800, 600);
    let before = c.aspect;
    c.update_aspect(400, 300);
    assert_eq!(c.aspect, Aspect { width: 400, height: 300 });
    assert!(same_ratio(before, c.aspect));
    assert!((c.aspect.width as f32 / c.aspect.height as f32 - 4.0 / 3.0).abs() < 1e-6);
}

#[test]
fn view_projection_maps_the_view_range_into_clip_depth() {
    let c = Camera::new(1, 1);
    let m = view_projection(&c);
    let eye = Vector3::new(2.0f32, 2.0, 3.0);
    let dir = -eye / (eye.x * eye.x + eye.y * eye.y + eye.z * eye.z).sqrt();
    for d in [0.2f32, 1.0, 3.6, 50.0, 99.0] {
        let p = eye + dir * d;
        let clip = m * Vector4::new(p.x, p.y, p.z, 1.0);
        assert!(clip.w > 0.0);
        let z = clip.z / clip.w;
        assert!((-1.0..=1.0).contains(&z), "depth {} at distance {}", z, d);
    }
    let target = m * Vector4::new(0.0, 0.0, 0.0, 1.0);
    assert!(target.w > 0.0);
    let behind = eye - dir * 1.0;
    let clip = m * Vector4::new(behind.x, behind.y, behind.z, 1.0);
    assert!(clip.w < 0.0);
}
