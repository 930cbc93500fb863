//! The page that is served on first contact.

use vstd::prelude::*;

verus! {

/// The bootstrap page: markup and script in one fixed document.
///
/// On load the script looks for the browser's geolocation capability and says
/// so in the status area where there is none. Otherwise it asks once for the
/// current position, with high accuracy preferred and a timeout of 5000 ms.
/// A fix is shown in the status area and posted to `/update` on the same
/// origin as a JSON object with the fields `latitude`, `longitude`,
/// `accuracy` and `timestamp`; an error is shown and nothing is posted.
pub const BOOTSTRAP_PAGE: &'static str = r#"
<!DOCTYPE html> 
<html lang="ko">
<head>
    <meta charset="UTF-8">
    <meta name="viewport" content="width=device-width, initial-scale=1.0">
    <title>위치 추적</title>
    <style>
        body {
            margin: 0;
            padding: 20px;
            font-family: monospace;
            background: #000;
            color: #0f0;
        }
        #status { font-size: 14px; }
    </style>
</head>
<body>
    <div id="status">위치 추적 중...</div>
    <script>
        window.addEventListener('DOMContentLoaded', () => {
            if (!navigator.geolocation) {
                document.getElementById('status').textContent = '위치 정보 지원 안 됨';
                return;
            }
            navigator.geolocation.getCurrentPosition(
                async (position) => {
                    const data = {
                        latitude: position.coords.latitude,
                        longitude: position.coords.longitude,
                        accuracy: position.coords.accuracy,
                        timestamp: Date.now()
                    };
                    document.getElementById('status').textContent = 
                        `위도: ${data.latitude.toFixed(6)}, 경도: ${data.longitude.toFixed(6)}, 정확도: ${data.accuracy.toFixed(2)}m`;

                    await fetch('/update', {
                        method: 'POST',
                        headers: { 'Content-Type': 'application/json' },
                        body: JSON.stringify(data)
                    });

                    // 자동으로 창 닫기
                    setTimeout(() => window.close(), 1500);
                },
                (error) => {
                    document.getElementById('status').textContent = '위치 오류: ' + error.message;
                },
                { enableHighAccuracy: true, timeout: 5000 }
            );
        });
    </script>
</body>
</html>
"#;

} // verus!
