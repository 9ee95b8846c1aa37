use yuvutils::rgba_to_yuv::{
    rgb_to_yuv422, rgb_to_yuv420, rgb_to_yuv444, rgba_to_yuv422, rgba_to_yuv420, rgba_to_yuv444, bgra_to_yuv422, bgra_to_yuv420, bgra_to_yuv444, bgr_to_yuv422, bgr_to_yuv420, bgr_to_yuv444, rgbx_to_yuv8,
};
use yuvutils::yuv_error::YuvError;
use yuvutils::yuv_support::{YuvChromaSample, YuvRange, YuvSourceChannels, YuvStandardMatrix};
use yuvutils::yuv_to_rgba::{
    yuv420_to_rgb, yuv420_to_rgba, yuv420_to_bgra, yuv420_to_bgr, yuv422_to_rgb, yuv422_to_rgba, yuv422_to_bgra, yuv422_to_bgr, yuv444_to_rgb, yuv444_to_rgba, yuv444_to_bgra, yuv444_to_bgr, yuv420_with_alpha_to_rgba, yuv420_with_alpha_to_bgra, yuv422_with_alpha_to_rgba, yuv422_with_alpha_to_bgra, yuv444_with_alpha_to_rgba, yuv444_with_alpha_to_bgra, yuv_to_rgbx, yuv_with_alpha_to_rgbx,
};

#[test]
fn forward_rgb_to_yuv422_bt601_full() {
    let source: Vec<u8> = vec![200, 79, 232, 173, 188, 132, 13, 14, 96, 107, 196, 180, 160, 157, 60, 134, 7, 82, 193, 185, 166, 41, 32, 177, 94, 198, 142, 113, 163, 154, 83, 189, 194, 28, 240, 255, 151, 136, 165, 218, 120, 32, 175, 146, 41, 194, 43, 63];
    let mut y: Vec<u8> = vec![170, 170, 170, 170, 170, 170, 170, 170, 170, 170, 170, 170, 170, 170, 170, 170, 170, 170, 170, 170, 170];
    let mut u: Vec<u8> = vec![171, 171, 171, 171, 171, 171, 171, 171, 171, 171, 171, 171, 171];
    let mut v: Vec<u8> = vec![172, 172, 172, 172, 172, 172, 172, 172, 172, 172, 172, 172, 172, 172, 172];
    let result = rgb_to_yuv422(
        &mut y, 7, &mut u, 4, &mut v, 5, &source, 16, 5, 3, YuvRange::Full,
        YuvStandardMatrix::Bt601,
    );
    assert_eq!(result, Ok(()));
    assert_eq!(y, vec![133, 177, 23, 167, 147, 170, 170, 72, 158, 124, 156, 149, 170, 170, 102, 181, 191, 129, 131, 170, 170]);
    assert_eq!(u, vec![143, 152, 79, 171, 129, 108, 91, 171, 154, 112, 78, 171, 171]);
    assert_eq!(v, vec![151, 103, 137, 172, 172, 115, 110, 138, 172, 172, 187, 84, 64, 172, 172]);
}

#[test]
fn forward_rgb_to_yuv420_bt709_tv() {
    let source: Vec<u8> = vec![3, 10, 142, 237, 59, 181, 252, 213, 132, 25, 252, 163, 47, 98, 154, 111, 187, 163, 215, 251, 93, 63, 188, 146, 210, 150, 54, 142, 148, 114, 176, 226, 187, 79, 205, 204, 101, 17, 61, 128, 153, 17, 38, 185, 89, 14, 148, 187];
    let mut y: Vec<u8> = vec![170, 170, 170, 170, 170, 170, 170, 170, 170, 170, 170, 170, 170, 170, 170, 170, 170, 170, 170, 170, 170];
    let mut u: Vec<u8> = vec![171, 171, 171, 171, 171, 171, 171, 171, 171];
    let mut v: Vec<u8> = vec![172, 172, 172, 172, 172, 172, 172, 172, 172, 172];
    let result = rgb_to_yuv420(
        &mut y, 7, &mut u, 4, &mut v, 5, &source, 16, 5, 3, YuvRange::TV,
        YuvStandardMatrix::Bt709,
    );
    assert_eq!(result, Ok(()));
    assert_eq!(y, vec![32, 107, 201, 185, 94, 170, 170, 164, 123, 153, 86, 124, 170, 170, 112, 116, 115, 54, 50, 170, 170]);
    assert_eq!(u, vec![175, 99, 157, 171, 126, 170, 179, 171, 171]);
    assert_eq!(v, vec![160, 90, 104, 172, 172, 174, 105, 156, 172, 172]);
}

#[test]
fn forward_rgb_to_yuv444_bt2020_full() {
    let source: Vec<u8> = vec![50, 86, 119, 92, 255, 178, 99, 139, 40, 96, 155, 101, 76, 158, 221, 128, 54, 159, 54, 192, 103, 106, 28, 222, 104, 136, 190, 236, 159, 26, 218, 215, 217, 178, 188, 249, 232, 199, 36, 200, 33, 20, 64, 76, 226, 239, 97, 189];
    let mut y: Vec<u8> = vec![170, 170, 170, 170, 170, 170, 170, 170, 170, 170, 170, 170, 170, 170, 170, 170, 170, 170, 170, 170, 170];
    let mut u: Vec<u8> = vec![171, 171, 171, 171, 171, 171, 171, 171, 171, 171, 171, 171, 171, 171, 171, 171, 171, 171, 171];
    let mut v: Vec<u8> = vec![172, 172, 172, 172, 172, 172, 172, 172, 172, 172, 172, 172, 172, 172, 172, 172, 172, 172, 172, 172, 172];
    let result = rgb_to_yuv444(
        &mut y, 7, &mut u, 6, &mut v, 7, &source, 16, 5, 3, YuvRange::Full,
        YuvStandardMatrix::Bt2020,
    );
    assert_eq!(result, Ok(()));
    assert_eq!(y, vec![79, 208, 123, 136, 140, 170, 170, 125, 126, 164, 179, 72, 170, 170, 189, 235, 147, 53, 227, 170, 170]);
    assert_eq!(u, vec![150, 112, 84, 109, 171, 171, 90, 117, 96, 159, 205, 171, 128, 109, 68, 140, 59, 171, 171]);
    assert_eq!(v, vec![109, 50, 112, 101, 85, 172, 172, 80, 172, 36, 99, 187, 172, 172, 147, 138, 53, 106, 127, 172, 172]);
}

#[test]
fn forward_rgba_to_yuv422_smpte240_tv() {
    let source: Vec<u8> = vec![67, 125, 18, 86, 251, 6, 115, 91, 140, 98, 226, 132, 242, 7, 144, 172, 95, 83, 64, 238, 152, 217, 240, 59, 181, 125, 218, 66, 71, 121, 11, 49, 135, 188, 14, 168, 45, 24, 222, 33, 27, 245, 141, 105, 50, 79, 48, 121, 193, 117, 92, 83, 193, 204, 124, 137, 36, 59, 40, 223, 135, 249, 205];
    let mut y: Vec<u8> = vec![170, 170, 170, 170, 170, 170, 170, 170, 170, 170, 170, 170, 170, 170, 170, 170, 170, 170, 170, 170, 170];
    let mut u: Vec<u8> = vec![171, 171, 171, 171, 171, 171, 171, 171, 171, 171, 171, 171, 171];
    let mut v: Vec<u8> = vec![172, 172, 172, 172, 172, 172, 172, 172, 172, 172, 172, 172, 172, 172, 172];
    let result = rgba_to_yuv422(
        &mut y, 7, &mut u, 4, &mut v, 5, &source, 21, 5, 3, YuvRange::TV,
        YuvStandardMatrix::Smpte240,
    );
    assert_eq!(result, Ok(()));
    assert_eq!(y, vec![99, 59, 127, 65, 85, 170, 170, 187, 169, 41, 69, 157, 170, 170, 99, 128, 108, 114, 178, 170, 170]);
    assert_eq!(u, vec![124, 179, 119, 171, 58, 163, 55, 171, 133, 130, 98, 171, 171]);
    assert_eq!(v, vec![169, 175, 135, 172, 172, 119, 180, 61, 172, 172, 119, 127, 57, 172, 172]);
}

#[test]
fn forward_rgba_to_yuv420_bt470_6_full() {
    let source: Vec<u8> = vec![74, 7, 69, 147, 85, 188, 32, 102, 29, 214, 249, 143, 56, 43, 222, 199, 242, 19, 1, 187, 106, 227, 175, 43, 71, 91, 244, 39, 167, 13, 140, 67, 169, 58, 98, 152, 240, 244, 190, 161, 125, 210, 233, 254, 206, 17, 16, 194, 226, 207, 20, 117, 80, 110, 204, 112, 189, 228, 245, 198, 216, 88, 233];
    let mut y: Vec<u8> = vec![170, 170, 170, 170, 170, 170, 170, 170, 170, 170, 170, 170, 170, 170, 170, 170, 170, 170, 170, 170, 170];
    let mut u: Vec<u8> = vec![171, 171, 171, 171, 171, 171, 171, 171, 171];
    let mut v: Vec<u8> = vec![172, 172, 172, 172, 172, 172, 172, 172, 172, 172];
    let result = rgba_to_yuv420(
        &mut y, 7, &mut u, 4, &mut v, 5, &source, 21, 5, 3, YuvRange::Full,
        YuvStandardMatrix::Bt470_6,
    );
    assert_eq!(result, Ok(()));
    assert_eq!(y, vec![26, 154, 175, 58, 67, 170, 170, 177, 196, 107, 93, 200, 170, 170, 246, 157, 93, 138, 210, 170, 170]);
    assert_eq!(u, vec![107, 192, 92, 171, 136, 138, 131, 171, 171]);
    assert_eq!(v, vec![121, 80, 240, 172, 172, 79, 126, 151, 172, 172]);
}

#[test]
fn forward_rgba_to_yuv444_bt601_tv() {
    let source: Vec<u8> = vec![186, 11, 145, 135, 249, 238, 10, 15, 90, 181, 169, 242, 48, 97, 127, 37, 43, 74, 161, 9, 160, 48, 86, 72, 183, 39, 84, 99, 29, 190, 61, 24, 174, 161, 135, 153, 74, 25, 254, 132, 180, 250, 39, 88, 44, 9, 243, 60, 119, 6, 183, 3, 101, 241, 59, 54, 196, 119, 54, 221, 31, 133, 162];
    let mut y: Vec<u8> = vec![170, 170, 170, 170, 170, 170, 170, 170, 170, 170, 170, 170, 170, 170, 170, 170, 170, 170, 170, 170, 170];
    let mut u: Vec<u8> = vec![171, 171, 171, 171, 171, 171, 171, 171, 171, 171, 171, 171, 171, 171, 171, 171, 171, 171, 171];
    let mut v: Vec<u8> = vec![172, 172, 172, 172, 172, 172, 172, 172, 172, 172, 172, 172, 172, 172, 172, 172, 172, 172, 172, 172, 172];
    let result = rgba_to_yuv444(
        &mut y, 7, &mut u, 6, &mut v, 7, &source, 21, 5, 3, YuvRange::TV,
        YuvStandardMatrix::Bt601,
    );
    assert_eq!(result, Ok(()));
    assert_eq!(y, vec![84, 201, 147, 90, 80, 170, 170, 79, 78, 98, 140, 163, 170, 170, 75, 121, 75, 78, 144, 170, 170]);
    assert_eq!(u, vec![161, 27, 136, 148, 171, 171, 128, 141, 93, 132, 109, 171, 116, 127, 144, 189, 70, 171, 171]);
    assert_eq!(v, vec![195, 149, 89, 104, 108, 172, 172, 112, 107, 187, 138, 36, 172, 172, 110, 204, 200, 120, 68, 172, 172]);
}

#[test]
fn forward_bgra_to_yuv422_bt709_full() {
    let source: Vec<u8> = vec![173, 216, 246, 45, 185, 46, 131, 242, 59, 208, 72, 113, 97, 160, 213, 204, 204, 193, 234, 137, 244, 149, 107, 251, 54, 158, 148, 121, 170, 213, 132, 189, 128, 173, 79, 56, 141, 45, 245, 13, 218, 243, 225, 188, 191, 89, 92, 195, 156, 152, 101, 42, 38, 193, 20, 217, 138, 239, 27, 95, 96, 10, 21];
    let mut y: Vec<u8> = vec![170, 170, 170, 170, 170, 170, 170, 170, 170, 170, 170, 170, 170, 170, 170, 170, 170, 170, 170, 170, 170];
    let mut u: Vec<u8> = vec![171, 171, 171, 171, 171, 171, 171, 171, 171, 171, 171, 171, 171];
    let mut v: Vec<u8> = vec![172, 172, 172, 172, 172, 172, 172, 172, 172, 172, 172, 172, 172, 172, 172];
    let result = bgra_to_yuv422(
        &mut y, 7, &mut u, 4, &mut v, 5, &source, 21, 5, 3, YuvRange::Full,
        YuvStandardMatrix::Bt709,
    );
    assert_eq!(result, Ok(()));
    assert_eq!(y, vec![218, 74, 168, 166, 202, 170, 170, 140, 142, 149, 80, 181, 170, 170, 191, 179, 45, 186, 90, 170, 170]);
    assert_eq!(u, vec![145, 80, 129, 171, 134, 170, 54, 171, 114, 98, 94, 171, 171]);
    assert_eq!(v, vec![155, 112, 148, 172, 172, 156, 132, 21, 172, 172, 121, 110, 132, 172, 172]);
}

#[test]
fn forward_bgra_to_yuv420_bt2020_tv() {
    let source: Vec<u8> = vec![204, 230, 99, 143, 141, 8, 3, 224, 208, 228, 39, 79, 112, 119, 50, 206, 238, 61, 61, 160, 20, 72, 203, 50, 17, 174, 238, 161, 228, 13, 137, 225, 90, 106, 122, 144, 75, 178, 125, 204, 252, 152, 102, 228, 219, 72, 144, 131, 58, 5, 111, 36, 115, 240, 253, 143, 252, 117, 192, 117, 177, 223, 203];
    let mut y: Vec<u8> = vec![170, 170, 170, 170, 170, 170, 170, 170, 170, 170, 170, 170, 170, 170, 170, 170, 170, 170, 170, 170, 170];
    let mut u: Vec<u8> = vec![171, 171, 171, 171, 171, 171, 171, 171, 171];
    let mut v: Vec<u8> = vec![172, 172, 172, 172, 172, 172, 172, 172, 172, 172];
    let result = bgra_to_yuv420(
        &mut y, 7, &mut u, 4, &mut v, 5, &source, 21, 5, 3, YuvRange::TV,
        YuvStandardMatrix::Bt2020,
    );
    assert_eq!(result, Ok(()));
    assert_eq!(y, vec![183, 28, 168, 102, 77, 170, 170, 149, 200, 147, 125, 144, 170, 170, 204, 113, 69, 169, 134, 170, 170]);
    assert_eq!(u, vec![160, 137, 205, 171, 108, 157, 154, 171, 171]);
    assert_eq!(v, vec![96, 72, 122, 172, 172, 112, 166, 152, 172, 172]);
}

#[test]
fn forward_bgra_to_yuv444_smpte240_full() {
    let source: Vec<u8> = vec![181, 245, 8, 190, 13, 97, 117, 201, 78, 234, 67, 59, 187, 92, 155, 80, 14, 101, 129, 167, 245, 245, 171, 159, 167, 170, 161, 93, 224, 137, 80, 50, 208, 109, 227, 203, 253, 143, 225, 75, 117, 103, 31, 230, 57, 17, 228, 67, 207, 130, 120, 232, 53, 22, 128, 8, 87, 255, 248, 249, 227, 48, 204];
    let mut y: Vec<u8> = vec![170, 170, 170, 170, 170, 170, 170, 170, 170, 170, 170, 170, 170, 170, 170, 170, 170, 170, 170, 170, 170];
    let mut u: Vec<u8> = vec![171, 171, 171, 171, 171, 171, 171, 171, 171, 171, 171, 171, 171, 171, 171, 171, 171, 171, 171];
    let mut v: Vec<u8> = vec![172, 172, 172, 172, 172, 172, 172, 172, 172, 172, 172, 172, 172, 172, 172, 172, 172, 172, 172, 172, 172];
    let result = bgra_to_yuv444(
        &mut y, 7, &mut u, 6, &mut v, 7, &source, 21, 5, 3, YuvRange::Full,
        YuvStandardMatrix::Smpte240,
    );
    assert_eq!(result, Ok(()));
    assert_eq!(y, vec![210, 81, 186, 117, 85, 170, 170, 185, 156, 89, 199, 194, 170, 170, 172, 113, 192, 40, 246, 170, 170]);
    assert_eq!(u, vec![109, 85, 59, 172, 83, 171, 166, 136, 158, 70, 95, 171, 38, 201, 82, 184, 129, 171, 171]);
    assert_eq!(v, vec![17, 148, 63, 148, 152, 172, 172, 113, 93, 106, 130, 63, 172, 172, 65, 179, 52, 153, 117, 172, 172]);
}

#[test]
fn forward_bgr_to_yuv422_bt470_6_tv() {
    let source: Vec<u8> = vec![184, 179, 148, 126, 22, 120, 255, 249, 246, 189, 20, 168, 5, 14, 4, 145, 29, 0, 238, 91, 248, 72, 235, 255, 56, 21, 79, 227, 229, 126, 222, 218, 41, 119, 118, 122, 109, 20, 70, 122, 28, 126, 67, 118, 183, 185, 214, 112];
    let mut y: Vec<u8> = vec![170, 170, 170, 170, 170, 170, 170, 170, 170, 170, 170, 170, 170, 170, 170, 170, 170, 170, 170, 170, 170];
    let mut u: Vec<u8> = vec![171, 171, 171, 171, 171, 171, 171, 171, 171, 171, 171, 171, 171];
    let mut v: Vec<u8> = vec![172, 172, 172, 172, 172, 172, 172, 172, 172, 172, 172, 172, 172, 172, 172];
    let result = bgr_to_yuv422(
        &mut y, 7, &mut u, 4, &mut v, 5, &source, 16, 5, 3, YuvRange::TV,
        YuvStandardMatrix::Bt470_6,
    );
    assert_eq!(result, Ok(()));
    assert_eq!(y, vec![164, 60, 230, 72, 26, 170, 170, 63, 186, 196, 109, 149, 170, 170, 113, 93, 100, 87, 180, 170, 170]);
    assert_eq!(u, vec![148, 158, 125, 171, 96, 113, 162, 171, 118, 131, 123, 171, 171]);
    assert_eq!(v, vec![140, 156, 124, 172, 172, 144, 119, 166, 172, 172, 110, 118, 141, 172, 172]);
}

#[test]
fn forward_bgr_to_yuv420_bt601_full() {
    let source: Vec<u8> = vec![237, 74, 214, 68, 48, 113, 115, 196, 234, 153, 127, 130, 244, 109, 43, 202, 214, 154, 25, 198, 1, 201, 254, 163, 197, 223, 80, 154, 62, 131, 238, 152, 17, 211, 42, 107, 186, 245, 95, 133, 42, 21, 157, 72, 100, 104, 120, 213];
    let mut y: Vec<u8> = vec![170, 170, 170, 170, 170, 170, 170, 170, 170, 170, 170, 170, 170, 170, 170, 170, 170, 170, 170, 170, 170];
    let mut u: Vec<u8> = vec![171, 171, 171, 171, 171, 171, 171, 171, 171];
    let mut v: Vec<u8> = vec![172, 172, 172, 172, 172, 172, 172, 172, 172, 172];
    let result = bgr_to_yuv420(
        &mut y, 7, &mut u, 4, &mut v, 5, &source, 16, 5, 3, YuvRange::Full,
        YuvStandardMatrix::Bt601,
    );
    assert_eq!(result, Ok(()));
    assert_eq!(y, vec![135, 70, 198, 131, 104, 170, 170, 122, 83, 184, 118, 155, 170, 170, 138, 195, 101, 116, 108, 170, 170]);
    assert_eq!(u, vec![157, 111, 207, 171, 69, 99, 123, 171, 171]);
    assert_eq!(v, vec![172, 140, 84, 172, 172, 112, 91, 136, 172, 172]);
}

#[test]
fn forward_bgr_to_yuv444_bt709_tv() {
    let source: Vec<u8> = vec![200, 80, 187, 98, 232, 81, 198, 129, 135, 70, 130, 111, 42, 5, 37, 211, 174, 211, 33, 34, 88, 187, 101, 152, 106, 223, 1, 19, 63, 232, 225, 207, 120, 85, 141, 145, 34, 9, 216, 183, 212, 74, 105, 251, 250, 39, 245, 134];
    let mut y: Vec<u8> = vec![170, 170, 170, 170, 170, 170, 170, 170, 170, 170, 170, 170, 170, 170, 170, 170, 170, 170, 170, 170, 170];
    let mut u: Vec<u8> = vec![171, 171, 171, 171, 171, 171, 171, 171, 171, 171, 171, 171, 171, 171, 171, 171, 171, 171, 171];
    let mut v: Vec<u8> = vec![172, 172, 172, 172, 172, 172, 172, 172, 172, 172, 172, 172, 172, 172, 172, 172, 172, 172, 172, 172, 172];
    let result = bgr_to_yuv444(
        &mut y, 7, &mut u, 6, &mut v, 7, &source, 16, 5, 3, YuvRange::TV,
        YuvStandardMatrix::Bt709,
    );
    assert_eq!(result, Ok(()));
    assert_eq!(y, vec![112, 179, 132, 120, 28, 170, 170, 162, 106, 135, 34, 204, 170, 170, 102, 48, 181, 131, 101, 170, 170]);
    assert_eq!(u, vec![169, 84, 157, 103, 141, 171, 129, 94, 110, 223, 54, 171, 137, 179, 139, 99, 199, 171, 171]);
    assert_eq!(v, vec![170, 67, 128, 122, 141, 172, 172, 52, 173, 110, 127, 132, 172, 172, 151, 113, 139, 193, 210, 172, 172]);
}

#[test]
fn inverse_yuv420_to_rgb_bt2020_full() {
    let y: Vec<u8> = vec![159, 160, 55, 77, 170, 111, 6, 253, 22, 169, 229, 196, 66, 102, 167, 74, 5, 64, 240, 148, 30];
    let u: Vec<u8> = vec![83, 20, 196, 215, 32, 181, 194, 64];
    let v: Vec<u8> = vec![161, 34, 28, 240, 67, 161, 88, 240, 31, 225];
    let mut out: Vec<u8> = vec![170, 170, 170, 170, 170, 170, 170, 170, 170, 170, 170, 170, 170, 170, 170, 170, 170, 170, 170, 170, 170, 170, 170, 170, 170, 170, 170, 170, 170, 170, 170, 170, 170, 170, 170, 170, 170, 170, 170, 170, 170, 170, 170, 170, 170, 170, 170, 170, 170];
    let result = yuv420_to_rgb(
        &y, 7, &u, 4, &v, 5, &mut out, 16, 5, 3, YuvRange::Full, YuvStandardMatrix::Bt2020,
    );
    assert_eq!(result, Ok(()));
    assert_eq!(out, vec![207, 148, 75, 208, 149, 76, 0, 128, 0, 0, 150, 0, 23, 216, 255, 170, 255, 242, 169, 70, 11, 0, 31, 242, 0, 91, 255, 27, 49, 242, 255, 170, 215, 164, 0, 122, 71, 0, 0, 19, 104, 5, 78, 163, 255, 164, 255, 170, 170]);
}

#[test]
fn inverse_yuv420_to_rgba_smpte240_tv() {
    let y: Vec<u8> = vec![231, 170, 45, 138, 89, 64, 26, 32, 68, 228, 79, 50, 229, 193, 117, 139, 208, 195, 148, 153, 36];
    let u: Vec<u8> = vec![75, 254, 235, 238, 207, 133, 86, 183];
    let v: Vec<u8> = vec![84, 97, 125, 196, 70, 96, 205, 137, 9, 62];
    let mut out: Vec<u8> = vec![170, 170, 170, 170, 170, 170, 170, 170, 170, 170, 170, 170, 170, 170, 170, 170, 170, 170, 170, 170, 170, 170, 170, 170, 170, 170, 170, 170, 170, 170, 170, 170, 170, 170, 170, 170, 170, 170, 170, 170, 170, 170, 170, 170, 170, 170, 170, 170, 170, 170, 170, 170, 170, 170, 170, 170, 170, 170, 170, 170, 170, 170, 170, 170];
    let result = yuv420_to_rgba(
        &y, 7, &u, 4, &v, 5, &mut out, 21, 5, 3, YuvRange::TV, YuvStandardMatrix::Smpte240,
    );
    assert_eq!(result, Ok(()));
    assert_eq!(out, vec![161, 255, 157, 255, 89, 221, 85, 255, 0, 0, 255, 255, 79, 82, 255, 255, 79, 28, 255, 255, 170, 0, 59, 0, 255, 0, 102, 0, 255, 184, 188, 255, 255, 9, 13, 255, 255, 34, 0, 232, 255, 170, 52, 84, 255, 255, 78, 109, 255, 255, 255, 202, 234, 255, 255, 187, 219, 255, 173, 175, 79, 255, 170, 170]);
}

#[test]
fn inverse_yuv420_to_bgra_bt470_6_full() {
    let y: Vec<u8> = vec![30, 73, 25, 188, 205, 236, 234, 250, 140, 243, 171, 114, 167, 48, 71, 24, 181, 168, 3, 134, 130];
    let u: Vec<u8> = vec![216, 170, 241, 151, 200, 197, 35, 72];
    let v: Vec<u8> = vec![214, 206, 208, 228, 35, 235, 143, 33, 61, 116];
    let mut out: Vec<u8> = vec![170, 170, 170, 170, 170, 170, 170, 170, 170, 170, 170, 170, 170, 170, 170, 170, 170, 170, 170, 170, 170, 170, 170, 170, 170, 170, 170, 170, 170, 170, 170, 170, 170, 170, 170, 170, 170, 170, 170, 170, 170, 170, 170, 170, 170, 170, 170, 170, 170, 170, 170, 170, 170, 170, 170, 170, 170, 170, 170, 170, 170, 170, 170, 170];
    let result = yuv420_to_bgra(
        &y, 7, &u, 4, &v, 5, &mut out, 21, 5, 3, YuvRange::Full, YuvStandardMatrix::Bt470_6,
    );
    assert_eq!(result, Ok(()));
    assert_eq!(out, vec![194, 0, 164, 255, 237, 15, 207, 255, 103, 0, 147, 255, 255, 142, 255, 255, 255, 145, 255, 255, 170, 255, 192, 255, 255, 255, 82, 255, 255, 255, 197, 255, 255, 249, 125, 255, 255, 255, 54, 239, 255, 170, 205, 6, 238, 255, 158, 0, 191, 255, 255, 161, 204, 255, 255, 148, 191, 255, 0, 66, 0, 255, 170, 170]);
}

#[test]
fn inverse_yuv420_to_bgr_bt601_tv() {
    let y: Vec<u8> = vec![151, 53, 254, 215, 122, 40, 5, 228, 32, 57, 58, 225, 201, 137, 160, 184, 210, 238, 244, 80, 114];
    let u: Vec<u8> = vec![239, 45, 9, 211, 140, 255, 27, 235];
    let v: Vec<u8> = vec![181, 74, 192, 134, 122, 198, 151, 211, 1, 162];
    let mut out: Vec<u8> = vec![170, 170, 170, 170, 170, 170, 170, 170, 170, 170, 170, 170, 170, 170, 170, 170, 170, 170, 170, 170, 170, 170, 170, 170, 170, 170, 170, 170, 170, 170, 170, 170, 170, 170, 170, 170, 170, 170, 170, 170, 170, 170, 170, 170, 170, 170, 170, 170, 170];
    let result = yuv420_to_bgr(
        &y, 7, &u, 4, &v, 5, &mut out, 16, 5, 3, YuvRange::TV, YuvStandardMatrix::Bt601,
    );
    assert_eq!(result, Ok(()));
    assert_eq!(out, vec![255, 72, 243, 255, 0, 128, 112, 255, 193, 66, 255, 147, 0, 119, 226, 170, 255, 162, 255, 242, 0, 103, 0, 124, 0, 0, 126, 0, 5, 239, 255, 170, 193, 107, 255, 221, 135, 255, 255, 159, 255, 255, 192, 255, 64, 239, 255, 170, 170]);
}

#[test]
fn inverse_yuv422_to_rgb_bt709_full() {
    let y: Vec<u8> = vec![121, 25, 48, 59, 192, 196, 130, 97, 250, 240, 145, 162, 116, 27, 44, 249, 220, 10, 248, 25, 147];
    let u: Vec<u8> = vec![224, 238, 165, 183, 109, 185, 233, 153, 250, 8, 71, 176];
    let v: Vec<u8> = vec![220, 128, 210, 238, 248, 50, 86, 231, 64, 172, 137, 184, 229, 123, 194];
    let mut out: Vec<u8> = vec![170, 170, 170, 170, 170, 170, 170, 170, 170, 170, 170, 170, 170, 170, 170, 170, 170, 170, 170, 170, 170, 170, 170, 170, 170, 170, 170, 170, 170, 170, 170, 170, 170, 170, 170, 170, 170, 170, 170, 170, 170, 170, 170, 170, 170, 170, 170, 170, 170];
    let result = yuv422_to_rgb(
        &y, 7, &u, 4, &v, 5, &mut out, 16, 5, 3, YuvRange::Full, YuvStandardMatrix::Bt709,
    );
    assert_eq!(result, Ok(()));
    assert_eq!(out, vec![255, 60, 255, 170, 0, 204, 48, 27, 253, 59, 38, 255, 255, 147, 255, 170, 0, 137, 62, 127, 255, 215, 174, 249, 255, 79, 154, 251, 255, 94, 255, 170, 58, 17, 255, 255, 222, 255, 255, 216, 0, 98, 6, 0, 255, 211, 142, 170, 170]);
}

#[test]
fn inverse_yuv422_to_rgba_bt2020_tv() {
    let y: Vec<u8> = vec![250, 68, 63, 223, 162, 190, 82, 178, 79, 186, 190, 28, 191, 49, 232, 72, 160, 152, 233, 36, 39];
    let u: Vec<u8> = vec![121, 142, 156, 182, 98, 212, 74, 173, 75, 138, 66, 12];
    let v: Vec<u8> = vec![18, 150, 164, 173, 231, 67, 226, 145, 134, 91, 238, 117, 117, 120, 107];
    let mut out: Vec<u8> = vec![170, 170, 170, 170, 170, 170, 170, 170, 170, 170, 170, 170, 170, 170, 170, 170, 170, 170, 170, 170, 170, 170, 170, 170, 170, 170, 170, 170, 170, 170, 170, 170, 170, 170, 170, 170, 170, 170, 170, 170, 170, 170, 170, 170, 170, 170, 170, 170, 170, 170, 170, 170, 170, 170, 170, 170, 170, 170, 170, 170, 170, 170, 170, 170];
    let result = yuv422_to_rgba(
        &y, 7, &u, 4, &v, 5, &mut out, 21, 5, 3, YuvRange::TV, YuvStandardMatrix::Bt2020,
    );
    assert_eq!(result, Ok(()));
    assert_eq!(out, vec![90, 255, 255, 255, 0, 134, 46, 255, 92, 38, 85, 255, 255, 226, 255, 255, 231, 142, 231, 255, 170, 88, 236, 126, 255, 0, 119, 10, 255, 255, 119, 255, 255, 255, 124, 255, 255, 42, 13, 0, 255, 170, 255, 191, 140, 255, 250, 3, 0, 255, 150, 174, 190, 255, 141, 165, 181, 255, 236, 255, 122, 255, 170, 170]);
}

#[test]
fn inverse_yuv422_to_bgra_smpte240_full() {
    let y: Vec<u8> = vec![124, 211, 52, 54, 134, 6, 179, 167, 164, 195, 213, 121, 138, 166, 212, 254, 150, 15, 196, 189, 101];
    let u: Vec<u8> = vec![27, 57, 108, 31, 248, 106, 24, 127, 235, 158, 188, 178];
    let v: Vec<u8> = vec![238, 222, 92, 254, 151, 102, 63, 182, 57, 255, 35, 61, 228, 189, 97];
    let mut out: Vec<u8> = vec![170, 170, 170, 170, 170, 170, 170, 170, 170, 170, 170, 170, 170, 170, 170, 170, 170, 170, 170, 170, 170, 170, 170, 170, 170, 170, 170, 170, 170, 170, 170, 170, 170, 170, 170, 170, 170, 170, 170, 170, 170, 170, 170, 170, 170, 170, 170, 170, 170, 170, 170, 170, 170, 170, 170, 170, 170, 170, 170, 170, 170, 170, 170, 170];
    let result = yuv422_to_bgra(
        &y, 7, &u, 4, &v, 5, &mut out, 21, 5, 3, YuvRange::Full, YuvStandardMatrix::Smpte240,
    );
    assert_eq!(result, Ok(()));
    assert_eq!(out, vec![0, 147, 255, 255, 52, 234, 255, 255, 0, 64, 224, 255, 0, 66, 226, 255, 102, 152, 68, 255, 170, 255, 115, 119, 255, 255, 112, 116, 255, 160, 221, 76, 255, 178, 239, 94, 255, 0, 159, 220, 255, 170, 255, 182, 42, 255, 255, 224, 84, 255, 197, 151, 28, 255, 62, 16, 0, 255, 255, 144, 255, 255, 170, 170]);
}

#[test]
fn inverse_yuv422_to_bgr_bt470_6_tv() {
    let y: Vec<u8> = vec![91, 159, 7, 52, 124, 77, 132, 136, 52, 34, 98, 65, 89, 209, 165, 235, 145, 31, 68, 31, 79];
    let u: Vec<u8> = vec![111, 15, 250, 3, 43, 243, 218, 1, 178, 50, 84, 65];
    let v: Vec<u8> = vec![47, 134, 237, 218, 242, 134, 37, 49, 101, 97, 70, 4, 243, 34, 32];
    let mut out: Vec<u8> = vec![170, 170, 170, 170, 170, 170, 170, 170, 170, 170, 170, 170, 170, 170, 170, 170, 170, 170, 170, 170, 170, 170, 170, 170, 170, 170, 170, 170, 170, 170, 170, 170, 170, 170, 170, 170, 170, 170, 170, 170, 170, 170, 170, 170, 170, 170, 170, 170, 170];
    let result = yuv422_to_bgr(
        &y, 7, &u, 4, &v, 5, &mut out, 16, 5, 3, YuvRange::TV, YuvStandardMatrix::Bt470_6,
    );
    assert_eq!(result, Ok(()));
    assert_eq!(out, vec![52, 137, 0, 132, 217, 25, 0, 11, 0, 0, 64, 53, 255, 39, 255, 170, 0, 156, 151, 0, 57, 53, 255, 47, 0, 255, 122, 0, 247, 82, 0, 170, 255, 196, 72, 255, 255, 154, 0, 238, 0, 0, 104, 0, 0, 6, 255, 170, 170]);
}

#[test]
fn inverse_yuv444_to_rgb_bt601_full() {
    let y: Vec<u8> = vec![114, 250, 83, 167, 119, 172, 56, 47, 115, 45, 238, 61, 114, 51, 196, 86, 184, 246, 63, 78, 82];
    let u: Vec<u8> = vec![213, 111, 36, 154, 81, 185, 10, 91, 150, 72, 87, 86, 108, 178, 163, 169, 86, 137];
    let v: Vec<u8> = vec![116, 9, 35, 153, 0, 34, 45, 67, 24, 160, 57, 112, 105, 215, 101, 125, 14, 160, 5, 252, 182];
    let mut out: Vec<u8> = vec![170, 170, 170, 170, 170, 170, 170, 170, 170, 170, 170, 170, 170, 170, 170, 170, 170, 170, 170, 170, 170, 170, 170, 170, 170, 170, 170, 170, 170, 170, 170, 170, 170, 170, 170, 170, 170, 170, 170, 170, 170, 170, 170, 170, 170, 170, 170, 170, 170];
    let result = yuv444_to_rgb(
        &y, 7, &u, 6, &v, 7, &mut out, 16, 5, 3, YuvRange::Full, YuvStandardMatrix::Bt601,
    );
    assert_eq!(result, Ok(()));
    assert_eq!(out, vec![97, 93, 255, 83, 255, 220, 0, 181, 0, 202, 140, 213, 0, 227, 36, 170, 0, 131, 0, 0, 202, 50, 90, 14, 84, 138, 255, 139, 39, 87, 0, 170, 158, 222, 161, 82, 71, 174, 24, 254, 246, 255, 209, 255, 0, 166, 0, 170, 170]);
}

#[test]
fn inverse_yuv444_to_rgba_bt709_tv() {
    let y: Vec<u8> = vec![238, 238, 207, 60, 19, 64, 115, 178, 198, 247, 69, 152, 166, 225, 84, 120, 177, 189, 225, 146, 170];
    let u: Vec<u8> = vec![9, 135, 166, 49, 134, 183, 83, 38, 20, 140, 137, 80, 13, 71, 122, 240, 29, 57];
    let v: Vec<u8> = vec![79, 75, 164, 70, 23, 78, 78, 5, 158, 94, 136, 201, 160, 65, 132, 139, 234, 50, 229, 44, 251];
    let mut out: Vec<u8> = vec![170, 170, 170, 170, 170, 170, 170, 170, 170, 170, 170, 170, 170, 170, 170, 170, 170, 170, 170, 170, 170, 170, 170, 170, 170, 170, 170, 170, 170, 170, 170, 170, 170, 170, 170, 170, 170, 170, 170, 170, 170, 170, 170, 170, 170, 170, 170, 170, 170, 170, 170, 170, 170, 170, 170, 170, 170, 170, 170, 170, 170, 170, 170, 170];
    let result = yuv444_to_rgba(
        &y, 7, &u, 6, &v, 7, &mut out, 21, 5, 3, YuvRange::TV, YuvStandardMatrix::Bt709,
    );
    assert_eq!(result, Ok(()));
    assert_eq!(out, vec![172, 255, 9, 255, 165, 255, 255, 255, 255, 196, 255, 255, 0, 100, 0, 255, 0, 58, 16, 255, 170, 0, 255, 95, 255, 255, 217, 23, 255, 210, 255, 43, 255, 76, 55, 87, 255, 255, 119, 178, 255, 170, 87, 103, 0, 255, 142, 129, 2, 255, 255, 134, 176, 255, 63, 220, 255, 255, 255, 213, 36, 255, 170, 170]);
}

#[test]
fn inverse_yuv444_to_bgra_bt2020_full() {
    let y: Vec<u8> = vec![66, 224, 164, 29, 242, 84, 252, 161, 211, 8, 238, 53, 203, 147, 125, 23, 237, 1, 98, 160, 30];
    let u: Vec<u8> = vec![103, 61, 22, 237, 152, 16, 66, 107, 196, 172, 232, 71, 127, 233, 51, 116, 101, 82];
    let v: Vec<u8> = vec![117, 224, 104, 233, 76, 226, 42, 236, 222, 155, 104, 192, 227, 49, 159, 57, 95, 55, 65, 157, 12];
    let mut out: Vec<u8> = vec![170, 170, 170, 170, 170, 170, 170, 170, 170, 170, 170, 170, 170, 170, 170, 170, 170, 170, 170, 170, 170, 170, 170, 170, 170, 170, 170, 170, 170, 170, 170, 170, 170, 170, 170, 170, 170, 170, 170, 170, 170, 170, 170, 170, 170, 170, 170, 170, 170, 170, 170, 170, 170, 170, 170, 170, 170, 170, 170, 170, 170, 170, 170, 170];
    let result = yuv444_to_bgra(
        &y, 7, &u, 6, &v, 7, &mut out, 21, 5, 3, YuvRange::Full, YuvStandardMatrix::Bt2020,
    );
    assert_eq!(result, Ok(()));
    assert_eq!(out, vec![19, 77, 50, 255, 98, 180, 255, 255, 0, 196, 129, 255, 233, 0, 183, 255, 255, 255, 166, 255, 170, 45, 109, 255, 255, 172, 160, 255, 255, 136, 0, 48, 255, 255, 244, 203, 255, 248, 0, 147, 255, 170, 123, 107, 171, 255, 220, 46, 0, 255, 93, 255, 189, 255, 0, 45, 0, 255, 47, 139, 5, 255, 170, 170]);
}

#[test]
fn inverse_yuv444_to_bgr_smpte240_tv() {
    let y: Vec<u8> = vec![96, 80, 9, 134, 69, 29, 117, 250, 122, 147, 159, 203, 160, 129, 158, 17, 171, 145, 35, 209, 101];
    let u: Vec<u8> = vec![98, 96, 144, 54, 141, 133, 146, 17, 78, 158, 157, 63, 112, 211, 10, 19, 215, 100];
    let v: Vec<u8> = vec![214, 4, 209, 138, 226, 166, 122, 202, 126, 181, 192, 63, 228, 139, 102, 61, 157, 195, 217, 94, 11];
    let mut out: Vec<u8> = vec![170, 170, 170, 170, 170, 170, 170, 170, 170, 170, 170, 170, 170, 170, 170, 170, 170, 170, 170, 170, 170, 170, 170, 170, 170, 170, 170, 170, 170, 170, 170, 170, 170, 170, 170, 170, 170, 170, 170, 170, 170, 170, 170, 170, 170, 170, 170, 170, 170];
    let result = yuv444_to_bgr(
        &y, 7, &u, 6, &v, 7, &mut out, 16, 5, 3, YuvRange::TV, YuvStandardMatrix::Smpte240,
    );
    assert_eq!(result, Ok(()));
    assert_eq!(out, vec![40, 87, 255, 18, 125, 0, 21, 0, 160, 5, 176, 159, 85, 29, 255, 170, 255, 245, 255, 0, 185, 120, 64, 167, 255, 221, 134, 255, 255, 221, 84, 170, 138, 182, 112, 150, 0, 0, 0, 238, 242, 0, 193, 255, 179, 0, 207, 170, 170]);
}

#[test]
fn inverse_yuv420_with_alpha_to_rgba_straight() {
    let y: Vec<u8> = vec![185, 158, 205, 110, 20, 22, 147, 42, 208, 35, 223, 174, 64, 39, 232, 58, 180, 221, 33, 115, 117];
    let u: Vec<u8> = vec![22, 102, 154, 77, 33, 85, 83, 116];
    let v: Vec<u8> = vec![39, 138, 135, 30, 228, 35, 193, 127, 14, 139];
    let a: Vec<u8> = vec![0, 255, 175, 175, 177, 225, 162, 25, 241, 96, 149, 122, 160, 65, 100, 197, 124, 42];
    let mut out: Vec<u8> = vec![170, 170, 170, 170, 170, 170, 170, 170, 170, 170, 170, 170, 170, 170, 170, 170, 170, 170, 170, 170, 170, 170, 170, 170, 170, 170, 170, 170, 170, 170, 170, 170, 170, 170, 170, 170, 170, 170, 170, 170, 170, 170, 170, 170, 170, 170, 170, 170, 170, 170, 170, 170, 170, 170, 170, 170, 170, 170, 170, 170, 170, 170, 170, 170];
    let result = yuv420_with_alpha_to_rgba(
        &y, 7, &u, 4, &v, 5, &a, 6, &mut out, 21, 5, 3, YuvRange::Full,
        YuvStandardMatrix::Bt470_6, false,
    );
    assert_eq!(result, Ok(()));
    assert_eq!(out, vec![46, 248, 0, 0, 19, 221, 0, 255, 221, 205, 157, 175, 126, 110, 62, 175, 31, 12, 68, 177, 170, 0, 105, 0, 162, 69, 255, 11, 25, 51, 35, 0, 241, 239, 223, 175, 96, 185, 166, 222, 149, 170, 87, 255, 55, 160, 0, 121, 0, 65, 255, 157, 100, 100, 255, 198, 141, 197, 31, 42, 0, 124, 170, 170]);
}

#[test]
fn inverse_yuv420_with_alpha_to_rgba_premultiplied() {
    let y: Vec<u8> = vec![151, 123, 89, 136, 72, 249, 185, 197, 231, 64, 208, 229, 84, 241, 106, 166, 190, 68, 162, 244, 196];
    let u: Vec<u8> = vec![229, 153, 55, 117, 124, 240, 190, 130];
    let v: Vec<u8> = vec![11, 17, 167, 197, 160, 63, 237, 234, 225, 102];
    let a: Vec<u8> = vec![0, 255, 94, 109, 43, 223, 172, 247, 27, 15, 67, 158, 51, 115, 215, 142, 104, 48];
    let mut out: Vec<u8> = vec![170, 170, 170, 170, 170, 170, 170, 170, 170, 170, 170, 170, 170, 170, 170, 170, 170, 170, 170, 170, 170, 170, 170, 170, 170, 170, 170, 170, 170, 170, 170, 170, 170, 170, 170, 170, 170, 170, 170, 170, 170, 170, 170, 170, 170, 170, 170, 170, 170, 170, 170, 170, 170, 170, 170, 170, 170, 170, 170, 170, 170, 170, 170, 170];
    let result = yuv420_with_alpha_to_rgba(
        &y, 7, &u, 4, &v, 5, &a, 6, &mut out, 21, 5, 3, YuvRange::TV,
        YuvStandardMatrix::Bt601, true,
    );
    assert_eq!(result, Ok(()));
    assert_eq!(out, vec![0, 0, 0, 0, 0, 181, 255, 255, 0, 61, 50, 94, 0, 94, 82, 109, 22, 10, 0, 43, 170, 18, 172, 172, 172, 63, 247, 247, 247, 0, 15, 11, 27, 3, 15, 15, 15, 67, 65, 27, 67, 170, 0, 32, 19, 51, 32, 104, 76, 115, 215, 61, 215, 215, 131, 0, 142, 142, 104, 25, 104, 104, 170, 170]);
}

#[test]
fn inverse_yuv420_with_alpha_to_bgra_straight() {
    let y: Vec<u8> = vec![204, 107, 219, 93, 103, 88, 150, 194, 162, 131, 223, 201, 92, 253, 191, 166, 184, 52, 230, 247, 147];
    let u: Vec<u8> = vec![234, 194, 57, 151, 102, 219, 110, 31];
    let v: Vec<u8> = vec![216, 224, 229, 186, 168, 66, 139, 4, 193, 214];
    let a: Vec<u8> = vec![0, 255, 27, 243, 100, 133, 175, 25, 154, 125, 47, 19, 3, 39, 211, 118, 142, 249];
    let mut out: Vec<u8> = vec![170, 170, 170, 170, 170, 170, 170, 170, 170, 170, 170, 170, 170, 170, 170, 170, 170, 170, 170, 170, 170, 170, 170, 170, 170, 170, 170, 170, 170, 170, 170, 170, 170, 170, 170, 170, 170, 170, 170, 170, 170, 170, 170, 170, 170, 170, 170, 170, 170, 170, 170, 170, 170, 170, 170, 170, 170, 170, 170, 170, 170, 170, 170, 170];
    let result = yuv420_with_alpha_to_bgra(
        &y, 7, &u, 4, &v, 5, &a, 6, &mut out, 21, 5, 3, YuvRange::Full,
        YuvStandardMatrix::Bt709, false,
    );
    assert_eq!(result, Ok(()));
    assert_eq!(out, vec![255, 143, 255, 0, 255, 46, 246, 255, 255, 162, 255, 27, 216, 36, 245, 243, 0, 69, 255, 100, 170, 255, 133, 255, 175, 255, 101, 255, 25, 254, 74, 255, 154, 255, 166, 255, 125, 69, 167, 255, 47, 170, 143, 225, 93, 3, 118, 200, 68, 39, 255, 162, 201, 211, 221, 30, 69, 118, 197, 255, 34, 142, 170, 170]);
}

#[test]
fn inverse_yuv420_with_alpha_to_bgra_premultiplied() {
    let y: Vec<u8> = vec![43, 1, 60, 234, 123, 247, 23, 109, 175, 80, 88, 10, 166, 158, 73, 165, 129, 179, 38, 18, 12];
    let u: Vec<u8> = vec![16, 192, 56, 0, 74, 220, 210, 149];
    let v: Vec<u8> = vec![249, 126, 0, 208, 105, 157, 63, 84, 145, 49];
    let a: Vec<u8> = vec![0, 255, 135, 93, 21, 66, 61, 169, 55, 57, 177, 31, 117, 21, 2, 142, 190, 137];
    let mut out: Vec<u8> = vec![170, 170, 170, 170, 170, 170, 170, 170, 170, 170, 170, 170, 170, 170, 170, 170, 170, 170, 170, 170, 170, 170, 170, 170, 170, 170, 170, 170, 170, 170, 170, 170, 170, 170, 170, 170, 170, 170, 170, 170, 170, 170, 170, 170, 170, 170, 170, 170, 170, 170, 170, 170, 170, 170, 170, 170, 170, 170, 170, 170, 170, 170, 170, 170];
    let result = yuv420_with_alpha_to_bgra(
        &y, 7, &u, 4, &v, 5, &a, 6, &mut out, 21, 5, 3, YuvRange::TV,
        YuvStandardMatrix::Bt2020, true,
    );
    assert_eq!(result, Ok(()));
    assert_eq!(out, vec![0, 0, 0, 0, 0, 0, 185, 255, 100, 22, 25, 135, 93, 89, 92, 93, 0, 18, 0, 21, 170, 0, 12, 61, 61, 0, 85, 169, 169, 46, 14, 16, 55, 49, 17, 18, 57, 0, 62, 0, 177, 170, 0, 27, 53, 117, 5, 14, 18, 21, 2, 1, 0, 2, 142, 120, 46, 142, 150, 29, 0, 190, 170, 170]);
}

#[test]
fn inverse_yuv422_with_alpha_to_rgba_straight() {
    let y: Vec<u8> = vec![118, 154, 163, 162, 250, 116, 172, 187, 216, 123, 98, 113, 195, 137, 126, 119, 133, 138, 55, 46, 99];
    let u: Vec<u8> = vec![69, 227, 219, 27, 48, 119, 220, 197, 152, 159, 26, 6];
    let v: Vec<u8> = vec![237, 142, 183, 153, 59, 120, 25, 235, 93, 168, 237, 251, 224, 245, 189];
    let a: Vec<u8> = vec![0, 255, 114, 87, 227, 36, 168, 156, 209, 192, 85, 152, 7, 75, 14, 16, 164, 227];
    let mut out: Vec<u8> = vec![170, 170, 170, 170, 170, 170, 170, 170, 170, 170, 170, 170, 170, 170, 170, 170, 170, 170, 170, 170, 170, 170, 170, 170, 170, 170, 170, 170, 170, 170, 170, 170, 170, 170, 170, 170, 170, 170, 170, 170, 170, 170, 170, 170, 170, 170, 170, 170, 170, 170, 170, 170, 170, 170, 170, 170, 170, 170, 170, 170, 170, 170, 170, 170];
    let result = yuv422_with_alpha_to_rgba(
        &y, 7, &u, 4, &v, 5, &a, 6, &mut out, 21, 5, 3, YuvRange::Full,
        YuvStandardMatrix::Smpte240, false,
    );
    assert_eq!(result, Ok(()));
    assert_eq!(out, vec![255, 121, 25, 0, 255, 157, 61, 255, 189, 112, 255, 114, 188, 111, 255, 87, 255, 193, 255, 227, 170, 172, 228, 61, 168, 201, 255, 90, 156, 0, 152, 109, 209, 0, 127, 84, 192, 255, 43, 255, 85, 170, 255, 89, 164, 7, 255, 82, 157, 75, 255, 89, 182, 14, 255, 94, 187, 16, 231, 82, 0, 164, 170, 170]);
}

#[test]
fn inverse_yuv422_with_alpha_to_rgba_premultiplied() {
    let y: Vec<u8> = vec![36, 15, 110, 220, 221, 169, 105, 82, 221, 67, 161, 95, 57, 41, 20, 205, 183, 120, 250, 169, 195];
    let u: Vec<u8> = vec![87, 249, 232, 93, 66, 52, 48, 78, 10, 107, 68, 211];
    let v: Vec<u8> = vec![34, 11, 255, 107, 4, 30, 107, 26, 46, 62, 30, 201, 45, 9, 36];
    let a: Vec<u8> = vec![0, 255, 16, 59, 246, 20, 22, 40, 13, 170, 220, 173, 165, 137, 154, 91, 162, 217];
    let mut out: Vec<u8> = vec![170, 170, 170, 170, 170, 170, 170, 170, 170, 170, 170, 170, 170, 170, 170, 170, 170, 170, 170, 170, 170, 170, 170, 170, 170, 170, 170, 170, 170, 170, 170, 170, 170, 170, 170, 170, 170, 170, 170, 170, 170, 170, 170, 170, 170, 170, 170, 170, 170, 170, 170, 170, 170, 170, 170, 170, 170, 170, 170, 170, 170, 170, 170, 170];
    let result = yuv422_with_alpha_to_rgba(
        &y, 7, &u, 4, &v, 5, &a, 6, &mut out, 21, 5, 3, YuvRange::TV,
        YuvStandardMatrix::Bt470_6, true,
    );
    assert_eq!(result, Ok(()));
    assert_eq!(out, vec![0, 0, 0, 0, 0, 61, 0, 255, 0, 9, 16, 16, 7, 59, 59, 59, 246, 141, 246, 246, 170, 0, 13, 0, 22, 11, 40, 17, 40, 1, 4, 0, 13, 89, 132, 7, 170, 0, 144, 0, 220, 170, 0, 56, 0, 165, 26, 137, 0, 137, 154, 96, 91, 154, 90, 30, 28, 91, 81, 162, 94, 162, 170, 170]);
}

#[test]
fn inverse_yuv422_with_alpha_to_bgra_straight() {
    let y: Vec<u8> = vec![3, 208, 76, 102, 40, 165, 37, 252, 33, 33, 138, 165, 243, 197, 51, 227, 5, 97, 89, 22, 155];
    let u: Vec<u8> = vec![150, 172, 19, 151, 69, 194, 29, 204, 75, 113, 76, 112];
    let v: Vec<u8> = vec![89, 88, 248, 211, 91, 81, 106, 133, 221, 115, 62, 213, 229, 214, 234];
    let a: Vec<u8> = vec![0, 255, 166, 95, 0, 145, 106, 76, 105, 90, 174, 13, 168, 224, 178, 245, 245, 107];
    let mut out: Vec<u8> = vec![170, 170, 170, 170, 170, 170, 170, 170, 170, 170, 170, 170, 170, 170, 170, 170, 170, 170, 170, 170, 170, 170, 170, 170, 170, 170, 170, 170, 170, 170, 170, 170, 170, 170, 170, 170, 170, 170, 170, 170, 170, 170, 170, 170, 170, 170, 170, 170, 170, 170, 170, 170, 170, 170, 170, 170, 170, 170, 170, 170, 170, 170, 170, 170];
    let result = yuv422_with_alpha_to_bgra(
        &y, 7, &u, 4, &v, 5, &a, 6, &mut out, 21, 5, 3, YuvRange::Full,
        YuvStandardMatrix::Bt601, false,
    );
    assert_eq!(result, Ok(()));
    assert_eq!(out, vec![42, 23, 0, 0, 247, 228, 153, 255, 154, 90, 20, 166, 180, 116, 46, 95, 0, 0, 209, 0, 170, 148, 255, 186, 106, 0, 87, 0, 76, 150, 26, 2, 105, 255, 131, 107, 90, 0, 195, 172, 174, 170, 0, 117, 0, 168, 133, 255, 134, 224, 0, 0, 125, 178, 71, 41, 217, 245, 0, 34, 231, 245, 170, 170]);
}

#[test]
fn inverse_yuv422_with_alpha_to_bgra_premultiplied() {
    let y: Vec<u8> = vec![158, 153, 235, 58, 211, 254, 51, 50, 186, 99, 12, 251, 213, 207, 90, 115, 4, 186, 90, 240, 253];
    let u: Vec<u8> = vec![70, 172, 112, 55, 128, 28, 219, 165, 110, 68, 250, 114];
    let v: Vec<u8> = vec![36, 145, 175, 167, 220, 170, 244, 128, 162, 193, 75, 25, 234, 35, 62];
    let a: Vec<u8> = vec![0, 255, 107, 179, 189, 49, 109, 233, 223, 37, 12, 204, 29, 169, 38, 252, 249, 61];
    let mut out: Vec<u8> = vec![170, 170, 170, 170, 170, 170, 170, 170, 170, 170, 170, 170, 170, 170, 170, 170, 170, 170, 170, 170, 170, 170, 170, 170, 170, 170, 170, 170, 170, 170, 170, 170, 170, 170, 170, 170, 170, 170, 170, 170, 170, 170, 170, 170, 170, 170, 170, 170, 170, 170, 170, 170, 170, 170, 170, 170, 170, 170, 170, 170, 170, 170, 170, 170];
    let result = yuv422_with_alpha_to_bgra(
        &y, 7, &u, 4, &v, 5, &a, 6, &mut out, 21, 5, 3, YuvRange::TV,
        YuvStandardMatrix::Bt709, true,
    );
    assert_eq!(result, Ok(()));
    assert_eq!(out, vec![0, 0, 0, 0, 38, 222, 0, 255, 107, 100, 107, 107, 100, 22, 56, 179, 145, 153, 189, 189, 170, 17, 8, 49, 109, 182, 162, 233, 233, 0, 51, 223, 223, 0, 0, 30, 37, 12, 12, 12, 12, 170, 6, 14, 0, 29, 52, 98, 14, 169, 0, 8, 0, 38, 72, 252, 14, 252, 249, 4, 249, 249, 170, 170]);
}

#[test]
fn inverse_yuv444_with_alpha_to_rgba_straight() {
    let y: Vec<u8> = vec![143, 220, 233, 35, 195, 231, 3, 152, 226, 0, 231, 181, 163, 29, 10, 131, 59, 53, 66, 16, 89];
    let u: Vec<u8> = vec![75, 72, 97, 140, 91, 178, 168, 252, 210, 59, 154, 48, 1, 178, 197, 213, 64, 68];
    let v: Vec<u8> = vec![88, 150, 181, 96, 198, 129, 173, 97, 203, 45, 222, 126, 217, 28, 252, 32, 239, 146, 29, 136, 180];
    let a: Vec<u8> = vec![0, 255, 167, 199, 146, 119, 120, 223, 92, 170, 57, 82, 48, 140, 118, 75, 247, 245];
    let mut out: Vec<u8> = vec![170, 170, 170, 170, 170, 170, 170, 170, 170, 170, 170, 170, 170, 170, 170, 170, 170, 170, 170, 170, 170, 170, 170, 170, 170, 170, 170, 170, 170, 170, 170, 170, 170, 170, 170, 170, 170, 170, 170, 170, 170, 170, 170, 170, 170, 170, 170, 170, 170, 170, 170, 170, 170, 170, 170, 170, 170, 170, 170, 170, 170, 170, 170, 170];
    let result = yuv444_with_alpha_to_rgba(
        &y, 7, &u, 6, &v, 7, &a, 6, &mut out, 21, 5, 3, YuvRange::Full,
        YuvStandardMatrix::Bt2020, false,
    );
    assert_eq!(result, Ok(()));
    assert_eq!(out, vec![84, 175, 44, 0, 252, 217, 115, 255, 255, 208, 175, 167, 0, 51, 58, 199, 255, 161, 126, 146, 170, 106, 163, 227, 120, 255, 161, 255, 223, 0, 34, 154, 92, 255, 189, 102, 170, 178, 178, 230, 57, 170, 192, 0, 0, 48, 0, 178, 225, 140, 222, 0, 188, 118, 79, 28, 212, 75, 0, 134, 0, 247, 170, 170]);
}

#[test]
fn inverse_yuv444_with_alpha_to_rgba_premultiplied() {
    let y: Vec<u8> = vec![64, 110, 144, 81, 94, 7, 73, 137, 143, 17, 45, 226, 133, 26, 166, 53, 42, 116, 124, 27, 229];
    let u: Vec<u8> = vec![146, 27, 193, 121, 196, 166, 187, 114, 254, 148, 3, 123, 49, 185, 31, 230, 183, 191];
    let v: Vec<u8> = vec![98, 37, 56, 57, 139, 17, 99, 235, 231, 180, 62, 182, 62, 60, 93, 197, 26, 102, 153, 135, 158];
    let a: Vec<u8> = vec![0, 255, 130, 14, 163, 87, 148, 249, 203, 64, 140, 30, 68, 38, 146, 86, 82, 11];
    let mut out: Vec<u8> = vec![170, 170, 170, 170, 170, 170, 170, 170, 170, 170, 170, 170, 170, 170, 170, 170, 170, 170, 170, 170, 170, 170, 170, 170, 170, 170, 170, 170, 170, 170, 170, 170, 170, 170, 170, 170, 170, 170, 170, 170, 170, 170, 170, 170, 170, 170, 170, 170, 170, 170, 170, 170, 170, 170, 170, 170, 170, 170, 170, 170, 170, 170, 170, 170];
    let result = yuv444_with_alpha_to_rgba(
        &y, 7, &u, 6, &v, 7, &a, 6, &mut out, 21, 5, 3, YuvRange::TV,
        YuvStandardMatrix::Smpte240, true,
    );
    assert_eq!(result, Ok(()));
    assert_eq!(out, vec![0, 0, 0, 0, 0, 190, 0, 255, 0, 68, 130, 130, 0, 5, 4, 14, 73, 33, 137, 163, 170, 148, 47, 144, 148, 249, 126, 121, 249, 87, 0, 182, 203, 0, 10, 18, 64, 140, 140, 12, 140, 170, 27, 61, 9, 68, 28, 0, 22, 38, 0, 64, 0, 146, 21, 23, 86, 86, 58, 29, 72, 82, 170, 170]);
}

#[test]
fn inverse_yuv444_with_alpha_to_bgra_straight() {
    let y: Vec<u8> = vec![140, 247, 73, 244, 215, 26, 47, 245, 31, 190, 223, 217, 109, 75, 72, 254, 75, 25, 82, 46, 188];
    let u: Vec<u8> = vec![95, 149, 76, 85, 56, 18, 161, 205, 177, 235, 188, 55, 241, 142, 98, 162, 194, 64];
    let v: Vec<u8> = vec![159, 165, 46, 105, 143, 242, 157, 182, 77, 32, 17, 251, 22, 15, 208, 55, 114, 56, 87, 223, 148];
    let a: Vec<u8> = vec![0, 255, 55, 6, 206, 141, 212, 158, 212, 145, 157, 8, 177, 226, 222, 50, 42, 203];
    let mut out: Vec<u8> = vec![170, 170, 170, 170, 170, 170, 170, 170, 170, 170, 170, 170, 170, 170, 170, 170, 170, 170, 170, 170, 170, 170, 170, 170, 170, 170, 170, 170, 170, 170, 170, 170, 170, 170, 170, 170, 170, 170, 170, 170, 170, 170, 170, 170, 170, 170, 170, 170, 170, 170, 170, 170, 170, 170, 170, 170, 170, 170, 170, 170, 170, 170, 170, 170];
    let result = yuv444_with_alpha_to_bgra(
        &y, 7, &u, 6, &v, 7, &a, 6, &mut out, 21, 5, 3, YuvRange::Full,
        YuvStandardMatrix::Bt470_6, false,
    );
    assert_eq!(result, Ok(()));
    assert_eq!(out, vec![79, 131, 188, 0, 255, 225, 255, 255, 0, 122, 0, 55, 164, 255, 208, 6, 81, 221, 238, 206, 170, 255, 213, 255, 212, 174, 41, 0, 158, 255, 227, 40, 212, 255, 255, 50, 145, 255, 146, 255, 157, 170, 255, 12, 197, 177, 255, 255, 140, 226, 19, 87, 53, 222, 88, 54, 0, 50, 205, 89, 18, 42, 170, 170]);
}

#[test]
fn inverse_yuv444_with_alpha_to_bgra_premultiplied() {
    let y: Vec<u8> = vec![171, 63, 153, 112, 49, 9, 193, 128, 48, 76, 51, 7, 24, 189, 138, 39, 5, 152, 116, 144, 167];
    let u: Vec<u8> = vec![201, 126, 28, 122, 161, 30, 78, 154, 144, 146, 117, 225, 113, 255, 96, 123, 164, 245];
    let v: Vec<u8> = vec![130, 36, 19, 8, 1, 179, 211, 37, 104, 218, 249, 9, 45, 218, 96, 218, 163, 245, 113, 111, 94];
    let a: Vec<u8> = vec![0, 255, 136, 56, 211, 100, 16, 85, 156, 180, 206, 128, 254, 184, 164, 231, 26, 48];
    let mut out: Vec<u8> = vec![170, 170, 170, 170, 170, 170, 170, 170, 170, 170, 170, 170, 170, 170, 170, 170, 170, 170, 170, 170, 170, 170, 170, 170, 170, 170, 170, 170, 170, 170, 170, 170, 170, 170, 170, 170, 170, 170, 170, 170, 170, 170, 170, 170, 170, 170, 170, 170, 170, 170, 170, 170, 170, 170, 170, 170, 170, 170, 170, 170, 170, 170, 170, 170];
    let result = yuv444_with_alpha_to_bgra(
        &y, 7, &u, 6, &v, 7, &a, 6, &mut out, 21, 5, 3, YuvRange::TV,
        YuvStandardMatrix::Bt601, true,
    );
    assert_eq!(result, Ok(()));
    assert_eq!(out, vec![0, 0, 0, 0, 51, 131, 0, 255, 0, 136, 0, 136, 22, 47, 0, 56, 87, 107, 0, 211, 170, 2, 14, 0, 16, 30, 16, 0, 85, 63, 0, 131, 156, 54, 0, 165, 180, 0, 73, 0, 206, 170, 113, 174, 92, 254, 184, 0, 123, 184, 0, 0, 28, 164, 135, 60, 231, 231, 19, 12, 9, 26, 170, 170]);
}

#[test]
fn planar_round_trip_stays_within_two() {
    let mut source: Vec<u8> = Vec::new();
    for r in (0..=255u32).step_by(17) {
        for g in (0..=255u32).step_by(17) {
            for b in (0..=255u32).step_by(17) {
                source.push(r as u8);
                source.push(g as u8);
                source.push(b as u8);
            }
        }
    }
    let pixels = (source.len() / 3) as u32;
    let mut y = vec![0u8; pixels as usize];
    let mut u = vec![0u8; pixels as usize];
    let mut v = vec![0u8; pixels as usize];
    assert_eq!(
        rgb_to_yuv444(
            &mut y, pixels, &mut u, pixels, &mut v, pixels, &source, 3 * pixels, pixels, 1,
            YuvRange::Full, YuvStandardMatrix::Bt601,
        ),
        Ok(())
    );
    let mut back = vec![0u8; source.len()];
    assert_eq!(
        yuv444_to_rgb(
            &y, pixels, &u, pixels, &v, pixels, &mut back, 3 * pixels, pixels, 1,
            YuvRange::Full, YuvStandardMatrix::Bt601,
        ),
        Ok(())
    );
    for i in 0..source.len() {
        assert!((back[i] as i32 - source[i] as i32).abs() <= 2);
    }
}

#[test]
fn planar_refuses_what_does_not_fit() {
    let source = vec![0u8; 6];
    let mut y = vec![1u8; 2];
    let mut u = vec![2u8; 1];
    let mut v = vec![3u8; 0];
    assert_eq!(
        rgb_to_yuv422(&mut y, 2, &mut u, 1, &mut v, 1, &source, 6, 2, 1, YuvRange::TV, YuvStandardMatrix::Bt709),
        Err(YuvError::BufferSizeMismatch)
    );
    assert_eq!((y.clone(), u.clone()), (vec![1u8; 2], vec![2u8; 1]));
    let mut out = vec![4u8; 6];
    assert_eq!(
        yuv422_to_rgb(&y, 2, &u, 1, &v, 1, &mut out, 6, 2, 1, YuvRange::TV, YuvStandardMatrix::Bt709),
        Err(YuvError::BufferSizeMismatch)
    );
    let v = vec![3u8; 1];
    let a = vec![0u8; 1];
    let mut out = vec![4u8; 8];
    assert_eq!(
        yuv422_with_alpha_to_rgba(
            &y, 2, &u, 1, &v, 1, &a, 2, &mut out, 8, 2, 1, YuvRange::TV, YuvStandardMatrix::Bt709, true,
        ),
        Err(YuvError::BufferSizeMismatch)
    );
    assert_eq!(out, vec![4u8; 8]);
}

#[test]
fn planar_dispatch_by_value_agrees_with_the_named_entry() {
    let source: Vec<u8> = vec![9, 8, 7, 6, 5, 4, 3, 2];
    let mut named = (vec![0u8; 2], vec![0u8; 1], vec![0u8; 1]);
    let mut valued = (vec![0u8; 2], vec![0u8; 1], vec![0u8; 1]);
    assert_eq!(
        bgra_to_yuv420(
            &mut named.0, 2, &mut named.1, 1, &mut named.2, 1, &source, 8, 2, 1,
            YuvRange::TV, YuvStandardMatrix::Smpte240,
        ),
        Ok(())
    );
    assert_eq!(
        rgbx_to_yuv8(
            &mut valued.0, 2, &mut valued.1, 1, &mut valued.2, 1, &source, 8, 2, 1,
            YuvRange::TV, YuvStandardMatrix::Smpte240, YuvSourceChannels::Bgra, YuvChromaSample::YUV420,
        ),
        Ok(())
    );
    assert_eq!(named, valued);
    let alpha: Vec<u8> = vec![128, 0];
    let mut out1 = vec![0u8; 8];
    let mut out2 = vec![0u8; 8];
    let mut out3 = vec![0u8; 8];
    assert_eq!(
        yuv420_with_alpha_to_bgra(
            &named.0, 2, &named.1, 1, &named.2, 1, &alpha, 2, &mut out1, 8, 2, 1,
            YuvRange::TV, YuvStandardMatrix::Smpte240, true,
        ),
        Ok(())
    );
    assert_eq!(
        yuv_with_alpha_to_rgbx(
            &named.0, 2, &named.1, 1, &named.2, 1, &alpha, 2, &mut out2, 8, 2, 1,
            YuvRange::TV, YuvStandardMatrix::Smpte240, true, YuvSourceChannels::Bgra, YuvChromaSample::YUV420,
        ),
        Ok(())
    );
    assert_eq!(out1, out2);
    assert_eq!(&out1[4..8], &[0u8, 0, 0, 0]);
    assert_eq!(
        yuv_to_rgbx(
            &named.0, 2, &named.1, 1, &named.2, 1, &mut out3, 8, 2, 1,
            YuvRange::TV, YuvStandardMatrix::Smpte240, YuvSourceChannels::Bgra, YuvChromaSample::YUV420,
        ),
        Ok(())
    );
    assert_eq!((out3[3], out3[7]), (255, 255));
}
