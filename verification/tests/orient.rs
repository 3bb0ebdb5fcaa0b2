use cubescript2::orient::{Orient, OrientError};
use cubescript2::table::to_homogeneous;

const MAIN_DIR: [u8; 6] = [0, 4, 16, 20, 32, 36];

fn show(c: u8, o: &Orient) {
    println!(
        "code:{:06b};\tsign:{:}\taxis:{:}\trot:{:}\tflip:{:}",
        c, o.sign, o.axis, o.rot, o.flip
    )
}

#[test]
fn show_decode() {
    let codes = MAIN_DIR;
    for c in codes {
        let o = Orient::decode(c).unwrap();
        show(c, &o);
    }
}

#[test]
fn show_to_mat() {
    let codes = MAIN_DIR;
    for c in codes {
        let o = Orient::decode(c).unwrap();
        show(c, &o);
        let m = to_homogeneous(&o.to_matrix().unwrap());
        println!("{:?}", m);
    }
}

fn all_valid() -> Vec<Orient> {
    let mut out = Vec::new();
    for rot in 0..4u8 {
        for sign in 0..2u8 {
            for flip in 0..2u8 {
                for axis in 0..3u8 {
                    out.push(Orient { rot, sign, flip, axis });
                }
            }
        }
    }
    out
}

#[test]
fn round_trip_orient() {
    for o in all_valid() {
        let c = o.encode().unwrap();
        assert_eq!(Orient::decode(c).unwrap(), o);
    }
}

#[test]
fn round_trip_code() {
    for c in 0..48u8 {
        let o = Orient::decode(c).unwrap();
        assert_eq!(o.encode().unwrap(), c);
    }
}

#[test]
fn rejects_invalid_fields() {
    let cases = [
        Orient { rot: 4, sign: 0, flip: 0, axis: 0 },
        Orient { rot: 0, sign: 2, flip: 0, axis: 0 },
        Orient { rot: 0, sign: 0, flip: 2, axis: 0 },
        Orient { rot: 0, sign: 0, flip: 0, axis: 3 },
        Orient { rot: 255, sign: 255, flip: 255, axis: 255 },
    ];
    for o in cases {
        assert_eq!(o.encode(), Err(OrientError::InvalidField));
        assert_eq!(o.to_matrix(), Err(OrientError::InvalidField));
    }
}

#[test]
fn rejects_invalid_codes() {
    for c in 48..=255u8 {
        assert_eq!(Orient::decode(c), Err(OrientError::InvalidCode));
    }
    assert!(Orient::decode(47).is_ok());
}

#[test]
fn identity_code_gives_identity_matrix() {
    let o = Orient::decode(0b00000000).unwrap();
    assert_eq!(o, Orient { rot: 0, sign: 0, flip: 0, axis: 0 });
    let m = o.to_matrix().unwrap();
    assert_eq!(m, [[1, 0, 0], [0, 1, 0], [0, 0, 1]]);
}

#[test]
fn identity_orientation_gives_identity_matrix() {
    let o = Orient { rot: 0, sign: 0, flip: 0, axis: 0 };
    let m = o.to_matrix().unwrap();
    assert_eq!(m, [[1, 0, 0], [0, 1, 0], [0, 0, 1]]);
}

#[test]
fn scenario_axis_one() {
    let o = Orient::decode(0b00010000).unwrap();
    assert_eq!(o, Orient { rot: 0, sign: 0, flip: 0, axis: 1 });
    let m = o.to_matrix().unwrap();
    assert_eq!(m, [[0, 0, 1], [1, 0, 0], [0, 1, 0]]);
}

fn det3(m: &[[i32; 3]; 3]) -> i32 {
    m[0][0] * (m[1][1] * m[2][2] - m[1][2] * m[2][1])
        - m[0][1] * (m[1][0] * m[2][2] - m[1][2] * m[2][0])
        + m[0][2] * (m[1][0] * m[2][1] - m[1][1] * m[2][0])
}

fn is_orthogonal_f32(m: &[[i32; 3]; 3]) -> bool {
    let f: Vec<Vec<f32>> = m
        .iter()
        .map(|row| row.iter().map(|&e| e as f32).collect())
        .collect();
    for i in 0..3 {
        for j in 0..3 {
            let dot: f32 = (0..3).map(|k| f[i][k] * f[j][k]).sum();
            let expect = if i == j { 1.0 } else { 0.0 };
            if (dot - expect).abs() > 1e-6 {
                return false;
            }
        }
    }
    true
}

#[test]
fn scenario_negative_axis() {
    let o = Orient { rot: 0, sign: 1, flip: 0, axis: 0 };
    let m = o.to_matrix().unwrap();
    assert_eq!(m, [[-1, 0, 0], [0, 0, 1], [0, 1, 0]]);
    // det = sign0 * sign1 * sign2 * parity(axis0, axis1, axis2)
    //     = (-1) * 1 * 1 * parity(0, 2, 1) = (-1) * (-1) = 1
    assert_eq!(det3(&m), 1);
    assert!(is_orthogonal_f32(&m));
}

#[test]
fn all_matrices_orthogonal() {
    for o in all_valid() {
        let m = o.to_matrix().unwrap();
        assert!(is_orthogonal_f32(&m));
        for i in 0..3 {
            for j in 0..3 {
                let dot: i32 = (0..3).map(|k| m[i][k] * m[j][k]).sum();
                assert_eq!(dot, if i == j { 1 } else { 0 });
            }
        }
    }
}

#[test]
fn all_matrices_monomial() {
    for o in all_valid() {
        let m = o.to_matrix().unwrap();
        for r in 0..3 {
            let nonzero: Vec<i32> = (0..3).map(|c| m[r][c]).filter(|&e| e != 0).collect();
            assert_eq!(nonzero.len(), 1);
            assert!(nonzero[0] == 1 || nonzero[0] == -1);
        }
        for c in 0..3 {
            let nonzero: Vec<i32> = (0..3).map(|r| m[r][c]).filter(|&e| e != 0).collect();
            assert_eq!(nonzero.len(), 1);
            assert!(nonzero[0] == 1 || nonzero[0] == -1);
        }
    }
}

fn assert_pairwise_distinct(mats: &[[[i32; 3]; 3]]) {
    for i in 0..mats.len() {
        for j in 0..mats.len() {
            if i != j {
                assert_ne!(mats[i], mats[j]);
            }
        }
    }
}

#[test]
fn rotation_matrices_pairwise_distinct() {
    let mut mats = Vec::new();
    for o in all_valid() {
        if o.flip == 0 {
            mats.push(o.to_matrix().unwrap());
        }
    }
    assert_eq!(mats.len(), 24);
    assert_pairwise_distinct(&mats);
}

#[test]
fn mirrored_matrices_pairwise_distinct() {
    let mut mats = Vec::new();
    for o in all_valid() {
        if o.flip == 1 {
            mats.push(o.to_matrix().unwrap());
        }
    }
    assert_eq!(mats.len(), 24);
    assert_pairwise_distinct(&mats);
}
