use togen::ToGen;

fn hamming_distance_u32(a: u32, b: u32) -> u32 {
    (a ^ b).count_ones()
}

#[test]
fn test_structural_similarity() {
    let t1 = ToGen::new("genesis");
    let t2 = ToGen::new("genesys");

    let dist_sem = hamming_distance_u32(t1.get_semantico(), t2.get_semantico());
    let dist_est = hamming_distance_u32(t1.get_estructural(), t2.get_estructural());

    println!("Distance 'genesis' vs 'genesys': Sem={}, Est={}", dist_sem, dist_est);

    let t3 = ToGen::new("skynet");
    let dist_diff_sem = hamming_distance_u32(t1.get_semantico(), t3.get_semantico());
    let dist_diff_est = hamming_distance_u32(t1.get_estructural(), t3.get_estructural());

    println!("Distance 'genesis' vs 'skynet': Sem={}, Est={}", dist_diff_sem, dist_diff_est);

    assert!(dist_sem < dist_diff_sem || dist_est < dist_diff_est, "El hash no conserva similitud estructural");
}
