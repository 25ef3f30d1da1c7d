use lance_exec::error::Error;
use lance_exec::pq::{divide_to_subvectors, get_sub_vector_centroids, num_centroids};

fn interleave(buffers: &[Vec<i64>], dimension: usize, n: usize) -> Vec<i64> {
    let m = buffers.len();
    let w = dimension / m;
    let mut out = Vec::new();
    for i in 0..n {
        for buffer in buffers {
            out.extend_from_slice(&buffer[i * w..(i + 1) * w]);
        }
    }
    out
}

#[test]
fn test_divide_to_subvectors() {
    let values: Vec<f32> = (0..320).map(|v| v as f32).collect();
    // A [10, 32] array.
    let sub_vectors = divide_to_subvectors::<f32>(&values, 32, 4).unwrap();
    assert_eq!(sub_vectors.len(), 4);
    assert_eq!(sub_vectors[0].len(), 10 * 8);

    assert_eq!(
        sub_vectors[0],
        (0..10)
            .flat_map(|i| (0..8).map(move |c| 32.0 * i as f32 + c as f32))
            .collect::<Vec<_>>()
    );
}

#[test]
fn sub_vector_zero_of_each_vector_is_its_first_slice() {
    let values: Vec<f32> = (0..320).map(|v| v as f32).collect();
    let sub_vectors = divide_to_subvectors::<f32>(&values, 32, 4).unwrap();
    for i in 0..10 {
        let expected: Vec<f32> = (0..8).map(|c| (32 * i + c) as f32).collect();
        assert_eq!(&sub_vectors[0][i * 8..(i + 1) * 8], expected.as_slice());
    }
}

#[test]
fn every_buffer_holds_its_slice_of_every_vector() {
    let values: Vec<i64> = (0..24).collect();
    let buffers = divide_to_subvectors::<i64>(&values, 6, 3).unwrap();
    assert_eq!(
        buffers,
        vec![
            vec![0, 1, 6, 7, 12, 13, 18, 19],
            vec![2, 3, 8, 9, 14, 15, 20, 21],
            vec![4, 5, 10, 11, 16, 17, 22, 23],
        ]
    );
}

#[test]
fn interleaving_the_buffers_recovers_the_vectors() {
    for (dimension, m) in [(1usize, 1usize), (4, 1), (4, 2), (4, 4), (6, 3), (12, 4), (32, 8)] {
        for n in [0usize, 1, 2, 5] {
            let values: Vec<i64> = (0..(n * dimension) as i64).map(|v| v * 7 - 3).collect();
            let buffers = divide_to_subvectors::<i64>(&values, dimension, m).unwrap();
            assert_eq!(buffers.len(), m);
            for buffer in &buffers {
                assert_eq!(buffer.len(), n * (dimension / m));
            }
            assert_eq!(interleave(&buffers, dimension, n), values);
        }
    }
}

#[test]
fn dimension_that_is_not_a_multiple_is_invalid_input() {
    let values: Vec<i64> = (0..20).collect();
    assert_eq!(
        divide_to_subvectors::<i64>(&values, 10, 3),
        Err(Error::InvalidInput { dimension: 10, num_sub_vectors: 3 })
    );
    assert_eq!(
        divide_to_subvectors::<i64>(&values, 4, 8),
        Err(Error::InvalidInput { dimension: 4, num_sub_vectors: 8 })
    );
    for dimension in 1usize..12 {
        for m in 1usize..14 {
            let values: Vec<u8> = vec![0; 2 * dimension];
            let divided = divide_to_subvectors::<u8>(&values, dimension, m);
            if dimension % m == 0 {
                assert!(divided.is_ok());
            } else {
                assert_eq!(divided, Err(Error::InvalidInput { dimension, num_sub_vectors: m }));
            }
        }
    }
}

#[test]
fn invalid_input_names_both_numbers() {
    let values: Vec<i64> = (0..20).collect();
    let error = divide_to_subvectors::<i64>(&values, 10, 3).unwrap_err();
    assert_eq!(
        error.message(),
        "num_sub_vectors must divide vector dimension 10, but got 3"
    );
}

#[test]
fn no_vectors_give_empty_buffers() {
    let values: Vec<i64> = Vec::new();
    assert_eq!(
        divide_to_subvectors::<i64>(&values, 8, 4).unwrap(),
        vec![Vec::<i64>::new(); 4]
    );
    assert_eq!(
        divide_to_subvectors::<i64>(&values, 0, 3).unwrap(),
        vec![Vec::<i64>::new(); 3]
    );
}

#[test]
fn num_centroids_is_a_power_of_two() {
    let mut expected: usize = 1;
    for bits in 0u32..=16 {
        assert_eq!(num_centroids(bits), expected);
        expected *= 2;
    }
    assert_eq!(num_centroids(0), 1);
    assert_eq!(num_centroids(4), 16);
    assert_eq!(num_centroids(8), 256);
    assert_eq!(num_centroids(16), 65536);
    assert_eq!(num_centroids(31), 2147483648);
}

#[test]
fn centroids_of_one_sub_vector() {
    // 4 sub-vectors of width 2, 2 bits: 4 centroids of 2 values each.
    let codebook: Vec<u32> = (0..32).collect();
    let expected: Vec<u32> = (16..24).collect();
    assert_eq!(get_sub_vector_centroids::<2, u32>(&codebook, 8, 4, 2), expected.as_slice());
    let first: Vec<u32> = (0..8).collect();
    assert_eq!(get_sub_vector_centroids::<2, u32>(&codebook, 8, 4, 0), first.as_slice());
    let last: Vec<u32> = (24..32).collect();
    assert_eq!(get_sub_vector_centroids::<2, u32>(&codebook, 8, 4, 3), last.as_slice());
}

#[test]
fn centroids_are_a_view_into_the_codebook() {
    let codebook: Vec<u32> = (0..32).collect();
    let centroids = get_sub_vector_centroids::<2, u32>(&codebook, 8, 4, 1);
    assert!(std::ptr::eq(centroids.as_ptr(), codebook[8..].as_ptr()));
}

#[test]
fn centroid_ranges_tile_the_codebook() {
    const BITS: u32 = 3;
    for (dimension, num_sub_vectors) in [(8usize, 4usize), (16, 2), (6, 6), (12, 3), (7, 2)] {
        let width = dimension / num_sub_vectors;
        let total = num_sub_vectors * num_centroids(BITS) * width;
        let codebook: Vec<usize> = (0..total).collect();
        let mut tiled: Vec<usize> = Vec::new();
        for idx in 0..num_sub_vectors {
            let part = get_sub_vector_centroids::<BITS, usize>(&codebook, dimension, num_sub_vectors, idx);
            assert_eq!(part.len(), num_centroids(BITS) * width);
            tiled.extend_from_slice(part);
        }
        assert_eq!(tiled, codebook);
    }
}

#[test]
fn centroids_of_a_sub_vector_without_width_are_empty() {
    let codebook: Vec<u8> = Vec::new();
    assert!(get_sub_vector_centroids::<8, u8>(&codebook, 2, 4, 3).is_empty());
}
