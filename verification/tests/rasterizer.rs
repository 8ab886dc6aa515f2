use solar_simulation::fixed::FX_ONE;
use solar_simulation::triangle::triangle;
use solar_simulation::vecmat::Vec3Fx;
use solar_simulation::vertex::Vertex;

fn screen_vertex(x: i64, y: i64) -> Vertex {
    let mut v = Vertex::new(Vec3Fx { x: 0, y: 0, z: 0 }, Vec3Fx { x: 0, y: 0, z: FX_ONE });
    v.transformed_position = Vec3Fx { x: x * FX_ONE, y: y * FX_ONE, z: 0 };
    v.transformed_normal = Vec3Fx { x: 0, y: 0, z: FX_ONE };
    v
}

#[test]
fn coverage_of_the_reference_triangle() {
    // vertices at screen (0,0), (0,10), (10,0), wound so the inclusive
    // inside test accepts interior pixel centers
    let v1 = screen_vertex(0, 0);
    let v2 = screen_vertex(0, 10);
    let v3 = screen_vertex(10, 0);
    let frags = triangle(&v1, &v2, &v3);
    assert!(frags.iter().any(|f| f.x == 1 && f.y == 1), "pixel (1,1) must be covered");
    assert!(frags.iter().all(|f| !(f.x == 9 && f.y == 9)), "pixel (9,9) is past the hypotenuse");
    // every fragment lies in the bounding box
    assert!(frags.iter().all(|f| 0 <= f.x && f.x <= 10 && 0 <= f.y && f.y <= 10));
    assert!(!frags.is_empty());
}

#[test]
fn collinear_triangle_emits_nothing() {
    let v1 = screen_vertex(0, 0);
    let v2 = screen_vertex(2, 2);
    let v3 = screen_vertex(4, 4);
    let frags = triangle(&v1, &v2, &v3);
    assert!(frags.is_empty());

    let h1 = screen_vertex(0, 3);
    let h2 = screen_vertex(5, 3);
    let h3 = screen_vertex(9, 3);
    assert!(triangle(&h1, &h2, &h3).is_empty());
}

#[test]
fn opposite_winding_emits_nothing() {
    let v1 = screen_vertex(0, 0);
    let v2 = screen_vertex(10, 0);
    let v3 = screen_vertex(0, 10);
    let frags = triangle(&v1, &v2, &v3);
    assert!(frags.is_empty());
}

#[test]
fn fragments_carry_the_first_vertex_color_and_unit_intensity() {
    let mut v1 = screen_vertex(0, 0);
    v1.color = solar_simulation::color::Color::new(9, 8, 7);
    let v2 = screen_vertex(0, 10);
    let v3 = screen_vertex(10, 0);
    let frags = triangle(&v1, &v2, &v3);
    assert!(!frags.is_empty());
    for f in frags.iter() {
        assert_eq!(f.color, solar_simulation::color::Color::new(9, 8, 7));
        assert_eq!(f.intensity, FX_ONE);
    }
}

#[test]
fn depth_is_interpolated_between_the_vertices() {
    let mut v1 = screen_vertex(0, 0);
    let mut v2 = screen_vertex(0, 10);
    let mut v3 = screen_vertex(10, 0);
    v1.transformed_position.z = 0;
    v2.transformed_position.z = 10 * FX_ONE;
    v3.transformed_position.z = 10 * FX_ONE;
    let frags = triangle(&v1, &v2, &v3);
    assert!(!frags.is_empty());
    for f in frags.iter() {
        assert!(0 <= f.depth && f.depth <= 10 * FX_ONE + FX_ONE);
    }
    // a pixel near the first vertex is much nearer than one by the far edge
    let near = frags.iter().find(|f| f.x == 0 && f.y == 0).unwrap();
    let far = frags.iter().find(|f| f.x == 0 && f.y == 9).unwrap();
    assert!(near.depth < far.depth);
}
