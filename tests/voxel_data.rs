use bevylder::assets::PreparedVoxels;
use bevylder::voxel::{BUFFER_SIZE, CELL_COUNT};
use bevylder::{BufferUsages, VoxelData, VoxelMeta};

fn sample_grid() -> VoxelData {
    let mut cells = [0u32; 4096];
    cells[0] = 0x1122_3344;
    cells[1] = 0xff00_00ff;
    cells[4095] = 0xaabb_ccdd;
    VoxelData(cells)
}

#[test]
fn default_grid_is_transparent() {
    let d = VoxelData::default();
    assert_eq!(d.0.len(), CELL_COUNT);
    assert!(d.0.iter().all(|c| *c == 0));
}

#[test]
fn buffer_is_four_bytes_per_cell() {
    let d = sample_grid();
    let bytes = d.buffer_contents();
    assert_eq!(bytes.len(), 4096 * 4);
    assert_eq!(bytes.len(), BUFFER_SIZE);
    assert_eq!(VoxelData::default().buffer_contents().len(), 16384);
}

#[test]
fn buffer_holds_cells_in_order_least_significant_byte_first() {
    let d = sample_grid();
    let bytes = d.buffer_contents();
    assert_eq!(&bytes[0..4], &[0x44, 0x33, 0x22, 0x11]);
    assert_eq!(&bytes[4..8], &[0xff, 0x00, 0x00, 0xff]);
    assert_eq!(&bytes[8..12], &[0, 0, 0, 0]);
    assert_eq!(&bytes[16380..16384], &[0xdd, 0xcc, 0xbb, 0xaa]);
    for (i, c) in d.0.iter().enumerate() {
        assert_eq!(&bytes[4 * i..4 * i + 4], &c.to_le_bytes());
    }
}

#[test]
fn prepared_buffer_is_uniform_and_copy_destination() {
    let d = sample_grid();
    let init = d.prepare_asset();
    assert_eq!(init.usage, BufferUsages { uniform: true, copy_dst: true });
    assert_eq!(init.contents, d.buffer_contents());
}

#[test]
fn extracted_asset_is_a_copy() {
    let d = sample_grid();
    let e = d.extract_asset();
    assert_eq!(e.0.to_vec(), d.0.to_vec());
}

#[test]
fn second_preparation_of_a_handle_is_a_cache_hit() {
    let d = sample_grid();
    let mut cache = PreparedVoxels::new();
    let first = cache.request(7, &d);
    assert!(first.is_some());
    assert_eq!(first.unwrap().contents.len(), 16384);
    assert!(cache.insert(7, VoxelMeta { buffer: 1, bind_group: 2 }));
    assert!(cache.request(7, &d).is_none());
    assert!(!cache.insert(7, VoxelMeta { buffer: 3, bind_group: 4 }));
    assert_eq!(cache.get(7), Some(VoxelMeta { buffer: 1, bind_group: 2 }));
    assert_eq!(cache.get(8), None);
    assert!(cache.request(8, &d).is_some());
}

#[test]
fn removed_asset_is_prepared_again() {
    let d = sample_grid();
    let mut cache = PreparedVoxels::new();
    assert!(cache.insert(7, VoxelMeta { buffer: 1, bind_group: 2 }));
    assert_eq!(cache.remove(7), Some(VoxelMeta { buffer: 1, bind_group: 2 }));
    assert_eq!(cache.remove(7), None);
    assert!(cache.request(7, &d).is_some());
    assert!(cache.insert(7, VoxelMeta { buffer: 5, bind_group: 6 }));
    assert_eq!(cache.get(7), Some(VoxelMeta { buffer: 5, bind_group: 6 }));
}

#[test]
fn changed_asset_drops_its_old_form() {
    let d = sample_grid();
    let mut cache = PreparedVoxels::new();
    assert!(cache.insert(7, VoxelMeta { buffer: 1, bind_group: 2 }));
    let init = cache.refresh(7, &d);
    assert_eq!(init.contents, d.buffer_contents());
    assert_eq!(init.usage, BufferUsages { uniform: true, copy_dst: true });
    assert_eq!(cache.get(7), None);
    assert!(cache.insert(7, VoxelMeta { buffer: 3, bind_group: 4 }));
    assert_eq!(cache.get(7), Some(VoxelMeta { buffer: 3, bind_group: 4 }));
}
