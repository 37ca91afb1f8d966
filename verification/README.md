# bascula

Firmware de la bascula AgroFenix (ESP32): lector NFC, OLED 128x64, semaforo
de cuatro LEDs, UART hacia la bascula, WiFi y aviso de arranque al servidor.

- `src/` es la libreria verificada con Verus: lo que se dibuja en la
  pantalla y donde, que LEDs enciende cada estado, el backoff y los reinicios
  del WiFi, las credenciales que acepta el driver, el rebote de tarjetas NFC,
  el contador de sesiones, las cabeceras y el status de las peticiones HTTP,
  y el aviso de arranque.
- `app/` es el programa para el ESP32: inicializa los perifericos, hace la
  E/S (I2C, SPI, UART, GPIO, WiFi, HTTP, NVS) y le pasa a la libreria los
  resultados; luego copia al hardware lo que la libreria decidio.
- `tests/` ejercita la libreria con valores concretos.
