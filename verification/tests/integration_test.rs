use tensorism::building::TensorPreparation;
use tensorism::dimensions::{
    Dim, generate_thumbprint, identical, new_dynamic_dim, new_static_dim, thumbprint_seed,
};
use tensorism::shapes::{ShapeBuilder, TensorBuilding};
use tensorism::tensors::{Tensor0, Tensor1, Tensor2, make_index_3, new_from_array};

#[test]
fn dimensions_are_ok() {
    let mut counter = thumbprint_seed();
    let d1 = new_dynamic_dim(&mut counter, 5);
    let d2 = new_dynamic_dim(&mut counter, 5);
    let static_d = new_static_dim::<7>();

    assert_eq!(5, d1.as_usize());
    assert_eq!(5, d2.as_usize());
    assert_eq!(7, static_d.as_usize());

    assert_ne!(d1.show(), d2.show());
    assert_eq!("7", static_d.show());

    let static_d = new_static_dim::<5>();
    assert_eq!(static_d, d1);
}

#[test]
fn tensor_equality() {
    let s = "Hello world".to_owned();
    let a = ShapeBuilder::with_static::<8>().with_static::<8>().fill(&s);
    let b: Tensor2<String> = a.clone();
    assert_eq!(a, b);

    let mut counter = thumbprint_seed();
    let d = new_dynamic_dim(&mut counter, 4);
    let c = ShapeBuilder::with(d).with_first().fill(&7);

    assert_eq!(
        format!(
            "\u{3008}4\u{2022}{0:04x}, 4\u{2022}{0:04x}\u{3009}[7, 7, 7, 7 | 7, 7, 7, 7 | 7, 7, \u{2026}]",
            d.get_thumbprint().unwrap()
        ),
        c.show_with(|x: i32| format!("{}", x), false)
    );
}

#[test]
fn building_shape() {
    let mut counter = thumbprint_seed();
    let d = new_dynamic_dim(&mut counter, 3);
    let s = ShapeBuilder::with(d).with_static::<5>().with_first();

    assert_eq!(45, s.count());
    assert_eq!(
        format!(
            "\u{3008}3\u{2022}{0:04x}, 5, 3\u{2022}{0:04x}\u{3009}",
            d.get_thumbprint().unwrap()
        ),
        s.show()
    );
}

#[test]
fn comparing_shapes() {
    let mut counter = thumbprint_seed();
    let s1 = ShapeBuilder::with(new_dynamic_dim(&mut counter, 4)).with_static::<4>();
    let s2 = s1.switch_12();
    assert_eq!(s1, s2);
    assert_ne!(s1.show(), s2.show());
}

#[test]
fn generate_tensor() {
    let a = ShapeBuilder::with_static::<3>()
        .with_static::<5>()
        .define(|(i, j)| (3 * i + 2 * j) % 7);

    assert_eq!(
        "\u{3008}3, 5\u{3009}[0, 2, 4, 6, 1 | 3, 5, 0, 2, 4 | 6, 1, 3, 5, 0]",
        a.show_with(|x: usize| format!("{}", x), true)
    );
    let shape = ShapeBuilder::with_static::<3>()
        .with_static::<2>()
        .with_static::<2>();

    let b = shape.define(|(i, j, k)| (3 * i + 2 * j + 5 * k) % 17);

    assert_eq!(
        "\u{3008}3, 2, 2\u{3009}[0, 5 | 2, 7 || 3, 8 | 5, 10 || 6, 11 | 8, 13]",
        b.show_with(|x: usize| format!("{}", x), true)
    );

    let c = shape
        .prepare()
        .append_vec(&mut vec![0, 5, 2, 7, 3, 8, 5, 10, 6, 11, 8, 13])
        .generate();

    assert_eq!(b, c);
}

#[test]
fn thumbprints_advance_the_counter() {
    let mut counter = thumbprint_seed();
    let first = generate_thumbprint(&mut counter);
    let second = generate_thumbprint(&mut counter);
    assert_eq!(0xF091, first);
    assert_ne!(first, second);
    // every minted thumbprint carries the fixed low bits
    assert_eq!(0x34E1, second & 0x34E1);
}

#[test]
fn dimension_display_pads_the_thumbprint() {
    let d = Dim { v: 10, thumbprint: Some(0x00AB) };
    assert_eq!("10\u{2022}00ab", d.show());
    let plain = Dim { v: 120, thumbprint: None };
    assert_eq!("120", plain.show());
}

#[test]
fn identical_compares_size_and_thumbprint() {
    let mut counter = thumbprint_seed();
    let d1 = new_dynamic_dim(&mut counter, 5);
    let d2 = new_dynamic_dim(&mut counter, 5);
    assert!(identical(&d1, &d1));
    assert!(!identical(&d1, &d2));
    assert_eq!(d1, d2);
}

#[test]
fn scalar_and_vector_tensors() {
    let t0 = Tensor0::new(42);
    assert_eq!(&42, t0.get());
    assert_eq!(1, t0.count());

    let mut counter = thumbprint_seed();
    let d = new_dynamic_dim(&mut counter, 3);
    let t1 = Tensor1::new(d, 9);
    assert_eq!(3, t1.count());
    assert_eq!(3, t1.dims().0.as_usize());

    let t2 = Tensor2::new(d, d, 1);
    assert_eq!(9, t2.count());
    assert_eq!((3, 3), (t2.dims().0.as_usize(), t2.dims().1.as_usize()));
}

#[test]
fn vector_from_arrays() {
    let u = new_from_array(&[2i8, 5i8, 90i8, -23i8]);
    assert_eq!(4, u.count());
    assert_eq!(vec![2i8, 5i8, 90i8, -23i8], u.data);

    let v = TensorBuilding::from_array_to_tensor1(&["a", "b"]);
    assert_eq!(2, v.count());
}

#[test]
fn casting_tensors() {
    let mut counter = thumbprint_seed();
    let d3 = new_dynamic_dim(&mut counter, 3);
    let e3 = new_dynamic_dim(&mut counter, 3);
    let d4 = new_dynamic_dim(&mut counter, 4);

    let t = Tensor1::new(d3, 7);
    let cast = t.try_cast(e3);
    assert!(cast.is_ok());
    let t = cast.unwrap();
    let failed = t.try_cast(d4);
    assert!(failed.is_err());

    let m = Tensor2::new(d3, d4, 0);
    assert!(m.clone().try_cast(e3, d4).is_ok());
    assert!(m.try_cast(d4, d3).is_err());
}

#[test]
fn from_vector_truncates() {
    let mut counter = thumbprint_seed();
    let d = new_dynamic_dim(&mut counter, 2);
    let t = Tensor1::from_vector_with_dim(d, vec![1, 2, 3, 4]);
    assert_eq!(vec![1, 2], t.data);
}

#[test]
fn preparing_tensors_step_by_step() {
    let shape = ShapeBuilder::with_static::<2>().with_static::<3>();
    let p: TensorPreparation<_, i64> = shape.prepare();
    assert_eq!(0, p.count_set_elements());
    assert_eq!(6, p.count_unset_elements());

    let p = p.append_array(&[10, 20]);
    assert_eq!(2, p.count_set_elements());
    assert_eq!(4, p.count_unset_elements());

    let p = p.fill_during(&0, 1);
    assert_eq!(3, p.count_set_elements());

    let not_done = p.try_generate();
    assert!(not_done.is_err());
    let p = not_done.unwrap_err();

    let t = p.fill(&5);
    assert_eq!(vec![10, 20, 0, 5, 5, 5], t.data);
}

#[test]
fn row_major_positions() {
    assert_eq!(33, make_index_3(1, 2, 3, 4, 5));
    assert_eq!(0, make_index_3(0, 0, 0, 4, 5));
}
